//! The polymorphic contract every endpoint implements.
//!
//! A Helix request yields an absolute URL and an HTTP method, and declares
//! the payload type it expects on success; an OAuth request yields a URL
//! only, since every OAuth call uses `GET`.  The URL each implementation
//! returns is pinned, character for character, by its `url_spec`.

pub mod analytics;
pub mod analytics_extensions;
pub mod analytics_games;
pub mod bits_cheermotes;
pub mod channel_info;
pub mod channels_commercial;
pub mod channels_info;
pub mod games_info;
pub mod oauth_validate;
pub mod search_channel;

use vstd::prelude::*;
use crate::api_url::ApiUrl;

verus! {

/// An HTTP method.
#[derive(PartialEq, Eq, Clone, Copy, Hash, Debug)]
pub enum HttpMethod {
    /// Get
    Get,
    /// Post
    Post,
}

/// A Helix request.
///
/// Every Helix request has an associated response type.  That type is not
/// returned directly: a decoded body is a
/// [`HelixResponse`](crate::response::HelixResponse) holding it inside the
/// success variant's `data` field.
///
/// A Helix request must simply return its URL and what HTTP method to use
/// to make the request; both are fixed by the request value alone.
pub trait HelixRequest: Sized {
    /// The payload type expected on success.
    type Response;

    /// The exact text of this request's URL.
    spec fn url_spec(&self) -> Seq<char>;

    /// The HTTP method this request uses.
    spec fn method_spec(&self) -> HttpMethod;

    /// Returns this request's URL.
    fn url(&self) -> (u: ApiUrl)
        ensures
            u@ == self.url_spec(),
    ;

    /// Returns the request's HTTP method.
    fn http_method(&self) -> (m: HttpMethod)
        ensures
            m == self.method_spec(),
    ;
}

/// An OAuth request.
///
/// Every OAuth request has an associated response type.  That type is not
/// returned directly: a decoded body is an
/// [`OAuthResponse`](crate::response::OAuthResponse) holding it as the
/// success variant itself.
///
/// An OAuth request must simply return its URL, as all such requests use
/// the `GET` HTTP method.
pub trait OAuthRequest: Sized {
    /// The payload type expected on success.
    type Response;

    /// The exact text of this request's URL.
    spec fn url_spec(&self) -> Seq<char>;

    /// Returns this request's URL.
    fn url(&self) -> (u: ApiUrl)
        ensures
            u@ == self.url_spec(),
    ;
}

/// Law: building a request's URL is idempotent.  Any two URLs that meet
/// one request value's URL specification are byte-identical, so two calls
/// of `url` on the same request yield the same text.
pub proof fn lemma_url_idempotent<R: HelixRequest>(r: &R, u1: ApiUrl, u2: ApiUrl)
    requires
        u1@ == r.url_spec(),
        u2@ == r.url_spec(),
    ensures
        u1@ == u2@,
{
}

} // verus!
