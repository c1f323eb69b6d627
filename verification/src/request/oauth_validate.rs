//! OAuth validation request.

use vstd::prelude::*;
use crate::api_url::{ApiBase, ApiUrl, base_text};
use crate::request::OAuthRequest;

verus! {

/// OAuth validation request.
///
/// This request uses the `/oauth2/validate` path to attempt to validate
/// and receive more information about an OAuth token.
///
/// This request takes no arguments, as the OAuth token is passed on the
/// request header, as authorization.
#[derive(PartialEq, Eq, Clone, Copy, Debug)]
pub struct Request;

/// OAuth validation response.
#[derive(PartialEq, Eq, Clone, Debug)]
pub struct Response {
    /// Client id.
    pub client_id: String,
    /// Login username.
    pub login: String,
    /// Scopes.
    pub scopes: Vec<String>,
    /// User id.
    pub user_id: String,
    /// Expiration.
    pub expires_in: Option<u64>,
}

impl OAuthRequest for Request {
    type Response = Response;

    open spec fn url_spec(&self) -> Seq<char> {
        base_text(ApiBase::OAuth) + "/"@ + "oauth2"@ + "/"@ + "validate"@
    }

    fn url(&self) -> (u: ApiUrl) {
        let mut u = ApiUrl::new(ApiBase::OAuth);
        u.push_segment("oauth2");
        u.push_segment("validate");
        proof {
            assert(u@ =~= self.url_spec());
        }
        u
    }
}

/// Law: the validation URL is exactly the OAuth base followed by the fixed
/// segments, with no query string.
pub proof fn lemma_validate_url_has_no_query(r: Request)
    ensures
        r.url_spec() == base_text(ApiBase::OAuth) + "/"@ + "oauth2"@ + "/"@ + "validate"@,
{
}

} // verus!
