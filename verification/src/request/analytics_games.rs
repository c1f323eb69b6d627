//! Games analytics request.

use vstd::prelude::*;
use crate::api_url::{ApiBase, ApiUrl, base_text, pair_text, pairs_text};
use crate::render::{dec_text, render_usize};
use crate::request::{HelixRequest, HttpMethod};
use crate::request::analytics::{ReportType, render_report_type, report_type_text};
use crate::timestamp::{Timestamp, rfc3339_text};

verus! {

/// Games analytics request.
///
/// This request uses the `/analytics/games` path to get a URL to
/// download game analytics reports.  Every parameter is optional; each
/// one that is set contributes one query pair, in the declared order:
/// `after`, `ended_at`, `game_id`, `first`, `started_at`, `type`.
#[derive(PartialEq, Eq, Clone, Debug)]
pub struct Request {
    /// Cursor for forward pagination.
    pub after: Option<String>,
    /// Ending date/time for returned reports.
    pub ended_at: Option<Timestamp>,
    /// Game id.
    pub game_id: Option<String>,
    /// Maximum number of objects to return.
    pub first: Option<usize>,
    /// Starting date for returned reports.
    pub started_at: Option<Timestamp>,
    /// Type of analytics report.
    pub report_type: Option<ReportType>,
}

impl Request {
    /// Creates a new request with all parameters unset.
    pub fn new() -> (r: Request)
        ensures
            r.after is None,
            r.ended_at is None,
            r.game_id is None,
            r.first is None,
            r.started_at is None,
            r.report_type is None,
    {
        Request {
            after: None,
            ended_at: None,
            game_id: None,
            first: None,
            started_at: None,
            report_type: None,
        }
    }

    /// Sets the cursor for forward pagination.
    pub fn with_after(self, after: String) -> (r: Request)
        ensures
            r == (Request { after: Some(after), ..self }),
    {
        Request { after: Some(after), ..self }
    }

    /// Sets the ending date/time for returned reports.
    pub fn with_ended_at(self, ended_at: Timestamp) -> (r: Request)
        ensures
            r == (Request { ended_at: Some(ended_at), ..self }),
    {
        Request { ended_at: Some(ended_at), ..self }
    }

    /// Sets the game id.
    pub fn with_game_id(self, game_id: String) -> (r: Request)
        ensures
            r == (Request { game_id: Some(game_id), ..self }),
    {
        Request { game_id: Some(game_id), ..self }
    }

    /// Sets the maximum number of objects to return.
    pub fn with_first(self, first: usize) -> (r: Request)
        ensures
            r == (Request { first: Some(first), ..self }),
    {
        Request { first: Some(first), ..self }
    }

    /// Sets the starting date for returned reports.
    pub fn with_started_at(self, started_at: Timestamp) -> (r: Request)
        ensures
            r == (Request { started_at: Some(started_at), ..self }),
    {
        Request { started_at: Some(started_at), ..self }
    }

    /// Sets the type of analytics report.
    pub fn with_report_type(self, report_type: ReportType) -> (r: Request)
        ensures
            r == (Request { report_type: Some(report_type), ..self }),
    {
        Request { report_type: Some(report_type), ..self }
    }

    /// The query pairs this request emits, in their declared order.
    pub open spec fn query_pairs(&self) -> Seq<(Seq<char>, Seq<char>)> {
        let ps = Seq::<(Seq<char>, Seq<char>)>::empty();
        let ps = if self.after is Some {
            ps.push(("after"@, self.after.unwrap()@))
        } else {
            ps
        };
        let ps = if self.ended_at is Some {
            ps.push(("ended_at"@, rfc3339_text(self.ended_at.unwrap())))
        } else {
            ps
        };
        let ps = if self.game_id is Some {
            ps.push(("game_id"@, self.game_id.unwrap()@))
        } else {
            ps
        };
        let ps = if self.first is Some {
            ps.push(("first"@, dec_text(self.first.unwrap() as nat)))
        } else {
            ps
        };
        let ps = if self.started_at is Some {
            ps.push(("started_at"@, rfc3339_text(self.started_at.unwrap())))
        } else {
            ps
        };
        if self.report_type is Some {
            ps.push(("type"@, report_type_text(self.report_type.unwrap())))
        } else {
            ps
        }
    }
}

/// The static prefix of the games analytics URL, query marker included.
#[verifier::opaque]
pub open spec fn games_url_prefix() -> Seq<char> {
    base_text(ApiBase::Helix) + "/"@ + "analytics"@ + "/"@ + "games"@ + "?"@
}

impl HelixRequest for Request {
    type Response = Vec<Report>;

    open spec fn url_spec(&self) -> Seq<char> {
        games_url_prefix() + pairs_text(self.query_pairs())
    }

    open spec fn method_spec(&self) -> HttpMethod {
        HttpMethod::Get
    }

    fn url(&self) -> (u: ApiUrl) {
        let mut u = ApiUrl::new(ApiBase::Helix);
        u.push_segment("analytics");
        u.push_segment("games");
        u.begin_query();
        let ghost prefix = games_url_prefix();
        let ghost mut ps = Seq::<(Seq<char>, Seq<char>)>::empty();
        proof {
            reveal(games_url_prefix);
            assert(u@ =~= prefix + pairs_text(ps));
        }
        if let Some(after) = &self.after {
            u.push_pair_in_list("after", after.as_str(), Ghost(prefix), Ghost(ps));
            proof {
                ps = ps.push(("after"@, after@));
            }
        }
        if let Some(ended_at) = &self.ended_at {
            u.push_pair_in_list(
                "ended_at",
                ended_at.to_rfc3339().as_str(),
                Ghost(prefix),
                Ghost(ps),
            );
            proof {
                ps = ps.push(("ended_at"@, rfc3339_text(*ended_at)));
            }
        }
        if let Some(game_id) = &self.game_id {
            u.push_pair_in_list("game_id", game_id.as_str(), Ghost(prefix), Ghost(ps));
            proof {
                ps = ps.push(("game_id"@, game_id@));
            }
        }
        if let Some(first) = &self.first {
            u.push_pair_in_list("first", render_usize(*first).as_str(), Ghost(prefix), Ghost(ps));
            proof {
                ps = ps.push(("first"@, dec_text(*first as nat)));
            }
        }
        if let Some(started_at) = &self.started_at {
            u.push_pair_in_list(
                "started_at",
                started_at.to_rfc3339().as_str(),
                Ghost(prefix),
                Ghost(ps),
            );
            proof {
                ps = ps.push(("started_at"@, rfc3339_text(*started_at)));
            }
        }
        if let Some(report_type) = &self.report_type {
            u.push_pair_in_list("type", render_report_type(*report_type), Ghost(prefix), Ghost(ps));
            proof {
                ps = ps.push(("type"@, report_type_text(*report_type)));
            }
        }
        proof {
            assert(ps == self.query_pairs());
        }
        u
    }

    fn http_method(&self) -> HttpMethod {
        HttpMethod::Get
    }
}

impl Default for Request {
    /// The request with all parameters unset.
    fn default() -> (r: Request)
        ensures
            r.after is None,
            r.ended_at is None,
            r.game_id is None,
            r.first is None,
            r.started_at is None,
            r.report_type is None,
    {
        Request::new()
    }
}

/// Law: with no parameter set, the URL is exactly the static path with an
/// empty query string.
pub proof fn lemma_minimal_games_url(r: Request)
    requires
        r.after is None,
        r.ended_at is None,
        r.game_id is None,
        r.first is None,
        r.started_at is None,
        r.report_type is None,
    ensures
        r.url_spec() == games_url_prefix(),
{
    assert(r.url_spec() =~= games_url_prefix());
}

/// A report.
#[derive(PartialEq, Eq, Clone, Debug)]
pub struct Report {
    /// Game id.
    pub game_id: String,
    /// Date range.
    pub date_range: DateRange,
    /// Type of report.
    pub report_type: ReportType,
    /// URL.
    pub url: String,
}

/// A date range.
#[derive(PartialEq, Eq, Clone, Debug)]
pub struct DateRange {
    /// UTC timestamp for starting time.
    pub started_at: Timestamp,
    /// UTC timestamp for ending time.
    pub ended_at: Timestamp,
}

} // verus!
