//! Channel search request.

use vstd::prelude::*;
use vstd::slice::slice_index_get;
use crate::api_url::{ApiBase, ApiUrl, base_text, pair_text};
use crate::lookup::{eq_ignore_case, str_eq_ignore_case};
use crate::render::{bool_text, dec_text, render_bool, render_usize};
use crate::request::{HelixRequest, HttpMethod};
use crate::timestamp::Timestamp;

verus! {

/// Channel search request.
///
/// This request uses the `/search/channels` path to search channels by a
/// query string.  Optional parameters contribute a query pair only when
/// set, in the declared order: `first`, `after`, `live_only`.
#[derive(PartialEq, Eq, Clone, Debug)]
pub struct Request {
    /// Search query.
    pub query: String,
    /// Maximum number of objects to return.
    pub first: Option<usize>,
    /// Cursor for forward pagination.
    pub after: Option<String>,
    /// Filter results for live streams only.
    pub live_only: Option<bool>,
}

impl Request {
    /// Creates a new channel search request given the query to search
    /// for.
    pub fn new(query: String) -> (r: Request)
        ensures
            r.query == query,
            r.first is None,
            r.after is None,
            r.live_only is None,
    {
        Request { query, first: None, after: None, live_only: None }
    }

    /// Sets the maximum number of objects to return.
    pub fn with_first(self, first: usize) -> (r: Request)
        ensures
            r.query == self.query,
            r.first == Some(first),
            r.after == self.after,
            r.live_only == self.live_only,
    {
        Request { first: Some(first), ..self }
    }

    /// Sets the cursor for forward pagination.
    pub fn with_after(self, after: String) -> (r: Request)
        ensures
            r.query == self.query,
            r.first == self.first,
            r.after == Some(after),
            r.live_only == self.live_only,
    {
        Request { after: Some(after), ..self }
    }

    /// Sets if filtering results for live streams only.
    pub fn with_live_only(self, live_only: bool) -> (r: Request)
        ensures
            r.query == self.query,
            r.first == self.first,
            r.after == self.after,
            r.live_only == Some(live_only),
    {
        Request { live_only: Some(live_only), ..self }
    }

    /// Returns the specific channel found by this request's response.
    ///
    /// It attempts to match the display name of any channel in the output
    /// against the search query, ignoring case; the first match is
    /// returned, else nothing.
    pub fn channel<'a>(&self, channels: &'a [Channel]) -> (r: Option<&'a Channel>)
        ensures
            (r matches Some(c) ==> exists|i: int|
                0 <= i < channels@.len() && channels@[i] == *c && eq_ignore_case(
                    self.query@,
                    channels@[i].display_name@,
                ) && (forall|j: int|
                    0 <= j < i ==> !eq_ignore_case(self.query@, channels@[j].display_name@))),
            (r is None <==> (forall|i: int|
                0 <= i < channels@.len() ==> !eq_ignore_case(
                    self.query@,
                    channels@[i].display_name@,
                ))),
    {
        let mut i: usize = 0;
        while i < channels.len()
            invariant
                i <= channels@.len(),
                forall|j: int|
                    0 <= j < i ==> !eq_ignore_case(self.query@, channels@[j].display_name@),
            decreases channels@.len() - i,
        {
            let channel = slice_index_get(channels, i);
            if str_eq_ignore_case(self.query.as_str(), channel.display_name.as_str()) {
                return Some(channel);
            }
            i = i + 1;
        }
        None
    }
}

impl HelixRequest for Request {
    type Response = Vec<Channel>;

    open spec fn url_spec(&self) -> Seq<char> {
        base_text(ApiBase::Helix) + "/"@ + "search"@ + "/"@ + "channels"@ + "?"@ + pair_text(
            "query"@,
            self.query@,
        ) + (if self.first is Some {
            "&"@ + pair_text("first"@, dec_text(self.first.unwrap() as nat))
        } else {
            Seq::<char>::empty()
        }) + (if self.after is Some {
            "&"@ + pair_text("after"@, self.after.unwrap()@)
        } else {
            Seq::<char>::empty()
        }) + (if self.live_only is Some {
            "&"@ + pair_text("live_only"@, bool_text(self.live_only.unwrap()))
        } else {
            Seq::<char>::empty()
        })
    }

    open spec fn method_spec(&self) -> HttpMethod {
        HttpMethod::Get
    }

    fn url(&self) -> (u: ApiUrl) {
        let mut u = ApiUrl::new(ApiBase::Helix);
        u.push_segment("search");
        u.push_segment("channels");
        u.push_pair("query", self.query.as_str());
        if let Some(first) = &self.first {
            u.push_pair("first", render_usize(*first).as_str());
        }
        if let Some(after) = &self.after {
            u.push_pair("after", after.as_str());
        }
        if let Some(live_only) = &self.live_only {
            u.push_pair("live_only", render_bool(*live_only).as_str());
        }
        proof {
            assert(u@ =~= self.url_spec());
        }
        u
    }

    fn http_method(&self) -> HttpMethod {
        HttpMethod::Get
    }
}

/// Law: with no optional parameter set, the URL is exactly the static
/// path followed by the single required `query` pair.
pub proof fn lemma_minimal_search_url(r: Request)
    requires
        r.first is None,
        r.after is None,
        r.live_only is None,
    ensures
        r.url_spec() == base_text(ApiBase::Helix) + "/"@ + "search"@ + "/"@ + "channels"@ + "?"@
            + pair_text("query"@, r.query@),
{
    assert(r.url_spec() =~= base_text(ApiBase::Helix) + "/"@ + "search"@ + "/"@ + "channels"@
        + "?"@ + pair_text("query"@, r.query@));
}

/// Law: each optional parameter that is set emits exactly one pair, in
/// the declared order `query`, `first`, `after`, `live_only`.
pub proof fn lemma_full_search_url(r: Request)
    requires
        r.first is Some,
        r.after is Some,
        r.live_only is Some,
    ensures
        r.url_spec() == base_text(ApiBase::Helix) + "/"@ + "search"@ + "/"@ + "channels"@ + "?"@
            + pair_text("query"@, r.query@) + "&"@ + pair_text(
            "first"@,
            dec_text(r.first.unwrap() as nat),
        ) + "&"@ + pair_text("after"@, r.after.unwrap()@) + "&"@ + pair_text(
            "live_only"@,
            bool_text(r.live_only.unwrap()),
        ),
{
    assert(r.url_spec() =~= base_text(ApiBase::Helix) + "/"@ + "search"@ + "/"@ + "channels"@
        + "?"@ + pair_text("query"@, r.query@) + "&"@ + pair_text(
        "first"@,
        dec_text(r.first.unwrap() as nat),
    ) + "&"@ + pair_text("after"@, r.after.unwrap()@) + "&"@ + pair_text(
        "live_only"@,
        bool_text(r.live_only.unwrap()),
    ));
}

/// Each channel in the output data.
#[derive(PartialEq, Eq, Clone, Debug)]
pub struct Channel {
    /// Channel language.
    pub broadcaster_language: String,
    /// Display name.
    pub display_name: String,
    /// Game id.
    pub game_id: String,
    /// Channel id.
    pub id: String,
    /// Live status.
    pub is_live: bool,
    /// Tag IDs that apply to the stream.
    /// Note: Category tags are not returned.
    pub tag_ids: Vec<String>,
    /// Thumbnail url.
    pub thumbnail_url: String,
    /// Title.
    pub title: String,
    /// UTC timestamp for stream start.
    /// Live streams only.
    pub started_at: Option<Timestamp>,
}

} // verus!
