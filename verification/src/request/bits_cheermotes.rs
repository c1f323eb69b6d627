//! Cheermotes request.

use vstd::prelude::*;
use crate::api_url::{ApiBase, ApiUrl, base_text, pair_text};
use crate::request::{HelixRequest, HttpMethod};

verus! {

/// Cheermotes request.
///
/// This request uses the `/bits/cheermotes` path to get a list of all
/// available cheermotes.
#[derive(PartialEq, Eq, Clone, Debug)]
pub struct Request {
    /// Broadcaster ID.
    pub broadcaster_id: String,
}

impl Request {
    /// Creates a new request.
    pub fn new(broadcaster_id: String) -> (r: Request)
        ensures
            r.broadcaster_id == broadcaster_id,
    {
        Request { broadcaster_id }
    }
}

impl HelixRequest for Request {
    type Response = Vec<Cheermote>;

    open spec fn url_spec(&self) -> Seq<char> {
        base_text(ApiBase::Helix) + "/"@ + "bits"@ + "/"@ + "cheermotes"@ + "?"@ + pair_text(
            "broadcaster_id"@,
            self.broadcaster_id@,
        )
    }

    open spec fn method_spec(&self) -> HttpMethod {
        HttpMethod::Get
    }

    fn url(&self) -> (u: ApiUrl) {
        let mut u = ApiUrl::new(ApiBase::Helix);
        u.push_segment("bits");
        u.push_segment("cheermotes");
        u.push_pair("broadcaster_id", self.broadcaster_id.as_str());
        proof {
            assert(u@ =~= self.url_spec());
        }
        u
    }

    fn http_method(&self) -> HttpMethod {
        HttpMethod::Get
    }
}

/// A cheermote.
#[derive(PartialEq, Eq, Clone, Debug)]
pub struct Cheermote {
    /// Prefix.
    pub prefix: String,
    /// Tiers.
    pub tiers: Vec<CheermoteTier>,
    /// Type.
    pub cheermote_type: String,
    /// Order.
    pub order: usize,
}

/// A cheermote tier.
#[derive(PartialEq, Eq, Clone, Debug)]
pub struct CheermoteTier {}

} // verus!
