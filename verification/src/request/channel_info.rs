//! Channel info request, with lookup helpers over the response.

use vstd::prelude::*;
use vstd::slice::slice_index_get;
use crate::api_url::{ApiBase, ApiUrl, base_text, pair_text};
use crate::lookup::{eq_ignore_case, str_eq_ignore_case};
use crate::request::{HelixRequest, HttpMethod};

verus! {

/// Channel info request.
///
/// This request uses the `/channels` path to get information about a
/// channel given their broadcaster id, and can pick the channel matching
/// that id out of the decoded response.
#[derive(PartialEq, Eq, Clone, Debug)]
pub struct Request {
    /// Broadcaster ID.
    pub broadcaster_id: String,
}

impl Request {
    /// Creates a new request.
    pub fn new(broadcaster_id: String) -> (r: Request)
        ensures
            r.broadcaster_id == broadcaster_id,
    {
        Request { broadcaster_id }
    }

    /// Finds the exact channel requested given the response.
    ///
    /// Attempts to find the first match on the `broadcast_id` field of the
    /// channels, without considering case; yields nothing when no channel
    /// matches.
    pub fn channel(&self, channels: Vec<Channel>) -> (r: Option<Channel>)
        ensures
            (r matches Some(c) ==> exists|i: int|
                0 <= i < channels@.len() && channels@[i] == c && eq_ignore_case(
                    self.broadcaster_id@,
                    channels@[i].broadcast_id@,
                ) && (forall|j: int|
                    0 <= j < i ==> !eq_ignore_case(
                        self.broadcaster_id@,
                        channels@[j].broadcast_id@,
                    ))),
            (r is None <==> (forall|i: int|
                0 <= i < channels@.len() ==> !eq_ignore_case(
                    self.broadcaster_id@,
                    channels@[i].broadcast_id@,
                ))),
    {
        let mut items = channels;
        let mut i: usize = 0;
        while i < items.len()
            invariant
                i <= items@.len(),
                items@ == channels@,
                forall|j: int|
                    0 <= j < i ==> !eq_ignore_case(
                        self.broadcaster_id@,
                        channels@[j].broadcast_id@,
                    ),
            decreases items@.len() - i,
        {
            if str_eq_ignore_case(
                self.broadcaster_id.as_str(),
                items[i].broadcast_id.as_str(),
            ) {
                let c = items.remove(i);
                proof {
                    assert(channels@[i as int] == c);
                    assert(eq_ignore_case(self.broadcaster_id@, channels@[i as int].broadcast_id@));
                }
                return Some(c);
            }
            i = i + 1;
        }
        None
    }

    /// Finds the exact channel requested given the response by reference.
    ///
    /// See [`Self::channel`] for more information.
    pub fn channel_ref<'a>(&self, channels: &'a [Channel]) -> (r: Option<&'a Channel>)
        ensures
            (r matches Some(c) ==> exists|i: int|
                0 <= i < channels@.len() && channels@[i] == *c && eq_ignore_case(
                    self.broadcaster_id@,
                    channels@[i].broadcast_id@,
                ) && (forall|j: int|
                    0 <= j < i ==> !eq_ignore_case(
                        self.broadcaster_id@,
                        channels@[j].broadcast_id@,
                    ))),
            (r is None <==> (forall|i: int|
                0 <= i < channels@.len() ==> !eq_ignore_case(
                    self.broadcaster_id@,
                    channels@[i].broadcast_id@,
                ))),
    {
        let mut i: usize = 0;
        while i < channels.len()
            invariant
                i <= channels@.len(),
                forall|j: int|
                    0 <= j < i ==> !eq_ignore_case(
                        self.broadcaster_id@,
                        channels@[j].broadcast_id@,
                    ),
            decreases channels@.len() - i,
        {
            let channel = slice_index_get(channels, i);
            if str_eq_ignore_case(self.broadcaster_id.as_str(), channel.broadcast_id.as_str()) {
                return Some(channel);
            }
            i = i + 1;
        }
        None
    }
}

impl HelixRequest for Request {
    type Response = Vec<Channel>;

    open spec fn url_spec(&self) -> Seq<char> {
        base_text(ApiBase::Helix) + "/"@ + "channels"@ + "?"@ + pair_text(
            "broadcaster_id"@,
            self.broadcaster_id@,
        )
    }

    open spec fn method_spec(&self) -> HttpMethod {
        HttpMethod::Get
    }

    fn url(&self) -> (u: ApiUrl) {
        let mut u = ApiUrl::new(ApiBase::Helix);
        u.push_segment("channels");
        u.push_pair("broadcaster_id", self.broadcaster_id.as_str());
        proof {
            assert(u@ =~= self.url_spec());
        }
        u
    }

    fn http_method(&self) -> HttpMethod {
        HttpMethod::Get
    }
}

/// Each channel in the output data.
#[derive(PartialEq, Eq, Clone, Debug)]
pub struct Channel {
    /// Channel streaming status.
    pub status: String,
    /// Broadcaster id.
    pub broadcast_id: String,
    /// Game id.
    pub game_id: String,
    /// Broadcaster language.
    pub broadcaster_language: String,
    /// Title.
    pub title: String,
    /// Description.
    pub description: String,
}

} // verus!
