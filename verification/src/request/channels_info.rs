//! Channel info request.

use vstd::prelude::*;
use crate::api_url::{ApiBase, ApiUrl, base_text, pair_text};
use crate::request::{HelixRequest, HttpMethod};

verus! {

/// Channel info request.
///
/// This request uses the `/channels` path to get information about a
/// channel given their broadcaster id.
#[derive(PartialEq, Eq, Clone, Debug)]
pub struct Request {
    /// Broadcaster ID.
    pub broadcaster_id: String,
}

impl Request {
    /// Creates a new request.
    pub fn new(broadcaster_id: String) -> (r: Request)
        ensures
            r.broadcaster_id == broadcaster_id,
    {
        Request { broadcaster_id }
    }
}

impl HelixRequest for Request {
    type Response = Vec<Channel>;

    open spec fn url_spec(&self) -> Seq<char> {
        base_text(ApiBase::Helix) + "/"@ + "channels"@ + "?"@ + pair_text(
            "broadcaster_id"@,
            self.broadcaster_id@,
        )
    }

    open spec fn method_spec(&self) -> HttpMethod {
        HttpMethod::Get
    }

    fn url(&self) -> (u: ApiUrl) {
        let mut u = ApiUrl::new(ApiBase::Helix);
        u.push_segment("channels");
        u.push_pair("broadcaster_id", self.broadcaster_id.as_str());
        proof {
            assert(u@ =~= self.url_spec());
        }
        u
    }

    fn http_method(&self) -> HttpMethod {
        HttpMethod::Get
    }
}

/// Each channel in the output data.
#[derive(PartialEq, Eq, Clone, Debug)]
pub struct Channel {
    /// Channel streaming status.
    pub status: String,
    /// Broadcaster id.
    pub broadcast_id: String,
    /// Game id.
    pub game_id: String,
    /// Broadcaster language.
    pub broadcaster_language: String,
    /// Title.
    pub title: String,
    /// Description.
    pub description: String,
}

} // verus!
