//! Channel start commercial request.

use vstd::prelude::*;
use crate::api_url::{ApiBase, ApiUrl, base_text, pair_text};
use crate::render::{dec_text, render_usize};
use crate::request::{HelixRequest, HttpMethod};

verus! {

/// Channel start commercial request.
///
/// This request uses the `/channels/commercial` path to start a
/// commercial on a channel.
#[derive(PartialEq, Eq, Clone, Debug)]
pub struct Request {
    /// Broadcaster ID.
    pub broadcaster_id: String,
    /// Commercial length.
    pub length: Length,
}

/// A commercial length.
#[derive(PartialEq, Eq, Clone, Copy, Debug)]
pub enum Length {
    /// 30 seconds.
    Seconds30,
    /// 60 seconds.
    Seconds60,
    /// 90 seconds.
    Seconds90,
    /// 120 seconds.
    Seconds120,
    /// 150 seconds.
    Seconds150,
    /// 180 seconds.
    Seconds180,
}

/// The number of seconds of a commercial length.
pub open spec fn length_secs(length: Length) -> nat {
    match length {
        Length::Seconds30 => 30,
        Length::Seconds60 => 60,
        Length::Seconds90 => 90,
        Length::Seconds120 => 120,
        Length::Seconds150 => 150,
        Length::Seconds180 => 180,
    }
}

impl Length {
    /// Returns the number of seconds of this length.
    pub fn secs(self) -> (r: usize)
        ensures
            r == length_secs(self),
    {
        match self {
            Self::Seconds30 => 30,
            Self::Seconds60 => 60,
            Self::Seconds90 => 90,
            Self::Seconds120 => 120,
            Self::Seconds150 => 150,
            Self::Seconds180 => 180,
        }
    }
}

impl Request {
    /// Creates a new request.
    pub fn new(broadcaster_id: String, length: Length) -> (r: Request)
        ensures
            r.broadcaster_id == broadcaster_id,
            r.length == length,
    {
        Request { broadcaster_id, length }
    }
}

impl HelixRequest for Request {
    type Response = [Response; 1];

    open spec fn url_spec(&self) -> Seq<char> {
        base_text(ApiBase::Helix) + "/"@ + "channels"@ + "/"@ + "commercial"@ + "?"@ + pair_text(
            "broadcaster_id"@,
            self.broadcaster_id@,
        ) + "&"@ + pair_text("length"@, dec_text(length_secs(self.length)))
    }

    open spec fn method_spec(&self) -> HttpMethod {
        HttpMethod::Post
    }

    fn url(&self) -> (u: ApiUrl) {
        let mut u = ApiUrl::new(ApiBase::Helix);
        u.push_segment("channels");
        u.push_segment("commercial");
        u.push_pair("broadcaster_id", self.broadcaster_id.as_str());
        u.push_pair("length", render_usize(self.length.secs()).as_str());
        proof {
            assert(u@ =~= self.url_spec());
        }
        u
    }

    fn http_method(&self) -> HttpMethod {
        HttpMethod::Post
    }
}

/// The response from the server.
#[derive(PartialEq, Eq, Clone, Debug)]
pub struct Response {
    /// Length of the commercial triggered.
    pub length: usize,
    /// Seconds until the next commercial can be served on this channel.
    pub retry_after: usize,
}

} // verus!
