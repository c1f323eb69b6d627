//! Extension analytics request.

use vstd::prelude::*;
use vstd::slice::slice_index_get;
use crate::api_url::{ApiBase, ApiUrl, base_text, lemma_pairs_text_snoc, pair_text, pairs_text};
use crate::lookup::{eq_ignore_case, str_eq_ignore_case};
use crate::render::{dec_text, render_usize};
use crate::request::{HelixRequest, HttpMethod};
use crate::request::analytics::{render_report_type, report_type_text};
use crate::timestamp::{Timestamp, rfc3339_text};

pub use crate::request::analytics::ReportType;

verus! {

/// Extension analytics request.
///
/// This request uses the `/analytics/extensions` path to get a URL to
/// download analytics reports.  Every parameter is optional; each one
/// that is set contributes one query pair, in the declared order:
/// `after`, `ended_at`, `extension_id`, `first`, `started_at`, `type`.
#[derive(PartialEq, Eq, Clone, Debug)]
pub struct Request {
    /// Cursor for forward pagination.
    pub after: Option<String>,
    /// Ending date/time for returned reports.
    pub ended_at: Option<Timestamp>,
    /// Extension id.
    pub extension_id: Option<String>,
    /// Maximum number of objects to return.
    pub first: Option<usize>,
    /// Starting date for returned reports.
    pub started_at: Option<Timestamp>,
    /// Type of analytics report.
    pub report_type: Option<ReportType>,
}

impl Request {
    /// Creates a new request with all parameters unset.
    pub fn new() -> (r: Request)
        ensures
            r.after is None,
            r.ended_at is None,
            r.extension_id is None,
            r.first is None,
            r.started_at is None,
            r.report_type is None,
    {
        Request {
            after: None,
            ended_at: None,
            extension_id: None,
            first: None,
            started_at: None,
            report_type: None,
        }
    }

    /// Sets the cursor for forward pagination.
    pub fn with_after(self, after: String) -> (r: Request)
        ensures
            r == (Request { after: Some(after), ..self }),
    {
        Request { after: Some(after), ..self }
    }

    /// Sets the ending date/time for returned reports.
    pub fn with_ended_at(self, ended_at: Timestamp) -> (r: Request)
        ensures
            r == (Request { ended_at: Some(ended_at), ..self }),
    {
        Request { ended_at: Some(ended_at), ..self }
    }

    /// Sets the extension id.
    pub fn with_extension_id(self, extension_id: String) -> (r: Request)
        ensures
            r == (Request { extension_id: Some(extension_id), ..self }),
    {
        Request { extension_id: Some(extension_id), ..self }
    }

    /// Sets the maximum number of objects to return.
    pub fn with_first(self, first: usize) -> (r: Request)
        ensures
            r == (Request { first: Some(first), ..self }),
    {
        Request { first: Some(first), ..self }
    }

    /// Sets the starting date for returned reports.
    pub fn with_started_at(self, started_at: Timestamp) -> (r: Request)
        ensures
            r == (Request { started_at: Some(started_at), ..self }),
    {
        Request { started_at: Some(started_at), ..self }
    }

    /// Sets the type of analytics report.
    pub fn with_report_type(self, report_type: ReportType) -> (r: Request)
        ensures
            r == (Request { report_type: Some(report_type), ..self }),
    {
        Request { report_type: Some(report_type), ..self }
    }

    /// Finds the exact extension requested given the response.
    ///
    /// Attempts to find the first match on the `extension_id` field of the
    /// reports, without considering case; yields nothing when this request
    /// has no extension id, or when no report matches.
    pub fn extension(&self, reports: Vec<Report>) -> (r: Option<Report>)
        ensures
            self.extension_id is None ==> r is None,
            self.extension_id is Some ==> {
                &&& (r matches Some(c) ==> exists|i: int|
                    0 <= i < reports@.len() && reports@[i] == c && eq_ignore_case(
                        self.extension_id.unwrap()@,
                        reports@[i].extension_id@,
                    ) && (forall|j: int|
                        0 <= j < i ==> !eq_ignore_case(
                            self.extension_id.unwrap()@,
                            reports@[j].extension_id@,
                        )))
                &&& (r is None <==> (forall|i: int|
                    0 <= i < reports@.len() ==> !eq_ignore_case(
                        self.extension_id.unwrap()@,
                        reports@[i].extension_id@,
                    )))
            },
    {
        let extension_id = match &self.extension_id {
            Some(extension_id) => extension_id,
            None => {
                return None;
            },
        };
        let mut items = reports;
        let mut i: usize = 0;
        while i < items.len()
            invariant
                i <= items@.len(),
                items@ == reports@,
                self.extension_id matches Some(q) && q == extension_id,
                forall|j: int|
                    0 <= j < i ==> !eq_ignore_case(extension_id@, reports@[j].extension_id@),
            decreases items@.len() - i,
        {
            if str_eq_ignore_case(extension_id.as_str(), items[i].extension_id.as_str()) {
                let c = items.remove(i);
                proof {
                    assert(reports@[i as int] == c);
                    assert(eq_ignore_case(extension_id@, reports@[i as int].extension_id@));
                }
                return Some(c);
            }
            i = i + 1;
        }
        None
    }

    /// Finds the exact extension requested given the response by
    /// reference.
    ///
    /// See [`Self::extension`] for more information.
    pub fn extension_ref<'a>(&self, reports: &'a [Report]) -> (r: Option<&'a Report>)
        ensures
            self.extension_id is None ==> r is None,
            self.extension_id is Some ==> {
                &&& (r matches Some(c) ==> exists|i: int|
                    0 <= i < reports@.len() && reports@[i] == *c && eq_ignore_case(
                        self.extension_id.unwrap()@,
                        reports@[i].extension_id@,
                    ) && (forall|j: int|
                        0 <= j < i ==> !eq_ignore_case(
                            self.extension_id.unwrap()@,
                            reports@[j].extension_id@,
                        )))
                &&& (r is None <==> (forall|i: int|
                    0 <= i < reports@.len() ==> !eq_ignore_case(
                        self.extension_id.unwrap()@,
                        reports@[i].extension_id@,
                    )))
            },
    {
        let extension_id = match &self.extension_id {
            Some(extension_id) => extension_id,
            None => {
                return None;
            },
        };
        let mut i: usize = 0;
        while i < reports.len()
            invariant
                i <= reports@.len(),
                self.extension_id matches Some(q) && q == extension_id,
                forall|j: int|
                    0 <= j < i ==> !eq_ignore_case(extension_id@, reports@[j].extension_id@),
            decreases reports@.len() - i,
        {
            let report = slice_index_get(reports, i);
            if str_eq_ignore_case(extension_id.as_str(), report.extension_id.as_str()) {
                return Some(report);
            }
            i = i + 1;
        }
        None
    }

    /// The query pairs this request emits, in their declared order.
    pub open spec fn query_pairs(&self) -> Seq<(Seq<char>, Seq<char>)> {
        let ps = Seq::<(Seq<char>, Seq<char>)>::empty();
        let ps = if self.after is Some {
            ps.push(("after"@, self.after.unwrap()@))
        } else {
            ps
        };
        let ps = if self.ended_at is Some {
            ps.push(("ended_at"@, rfc3339_text(self.ended_at.unwrap())))
        } else {
            ps
        };
        let ps = if self.extension_id is Some {
            ps.push(("extension_id"@, self.extension_id.unwrap()@))
        } else {
            ps
        };
        let ps = if self.first is Some {
            ps.push(("first"@, dec_text(self.first.unwrap() as nat)))
        } else {
            ps
        };
        let ps = if self.started_at is Some {
            ps.push(("started_at"@, rfc3339_text(self.started_at.unwrap())))
        } else {
            ps
        };
        if self.report_type is Some {
            ps.push(("type"@, report_type_text(self.report_type.unwrap())))
        } else {
            ps
        }
    }
}

/// The static prefix of the extension analytics URL, query marker
/// included.
#[verifier::opaque]
pub open spec fn extensions_url_prefix() -> Seq<char> {
    base_text(ApiBase::Helix) + "/"@ + "analytics"@ + "/"@ + "extensions"@ + "?"@
}

impl HelixRequest for Request {
    type Response = Vec<Report>;

    open spec fn url_spec(&self) -> Seq<char> {
        extensions_url_prefix() + pairs_text(self.query_pairs())
    }

    open spec fn method_spec(&self) -> HttpMethod {
        HttpMethod::Get
    }

    fn url(&self) -> (u: ApiUrl) {
        let mut u = ApiUrl::new(ApiBase::Helix);
        u.push_segment("analytics");
        u.push_segment("extensions");
        u.begin_query();
        let ghost prefix = extensions_url_prefix();
        let ghost mut ps = Seq::<(Seq<char>, Seq<char>)>::empty();
        proof {
            reveal(extensions_url_prefix);
            assert(u@ =~= prefix + pairs_text(ps));
        }
        if let Some(after) = &self.after {
            u.push_pair_in_list("after", after.as_str(), Ghost(prefix), Ghost(ps));
            proof {
                ps = ps.push(("after"@, after@));
            }
        }
        if let Some(ended_at) = &self.ended_at {
            u.push_pair_in_list(
                "ended_at",
                ended_at.to_rfc3339().as_str(),
                Ghost(prefix),
                Ghost(ps),
            );
            proof {
                ps = ps.push(("ended_at"@, rfc3339_text(*ended_at)));
            }
        }
        if let Some(extension_id) = &self.extension_id {
            u.push_pair_in_list("extension_id", extension_id.as_str(), Ghost(prefix), Ghost(ps));
            proof {
                ps = ps.push(("extension_id"@, extension_id@));
            }
        }
        if let Some(first) = &self.first {
            u.push_pair_in_list("first", render_usize(*first).as_str(), Ghost(prefix), Ghost(ps));
            proof {
                ps = ps.push(("first"@, dec_text(*first as nat)));
            }
        }
        if let Some(started_at) = &self.started_at {
            u.push_pair_in_list(
                "started_at",
                started_at.to_rfc3339().as_str(),
                Ghost(prefix),
                Ghost(ps),
            );
            proof {
                ps = ps.push(("started_at"@, rfc3339_text(*started_at)));
            }
        }
        if let Some(report_type) = &self.report_type {
            u.push_pair_in_list(
                "type",
                render_report_type(*report_type),
                Ghost(prefix),
                Ghost(ps),
            );
            proof {
                ps = ps.push(("type"@, report_type_text(*report_type)));
            }
        }
        proof {
            assert(ps == self.query_pairs());
        }
        u
    }

    fn http_method(&self) -> HttpMethod {
        HttpMethod::Get
    }
}

impl Default for Request {
    /// The request with all parameters unset.
    fn default() -> (r: Request)
        ensures
            r.after is None,
            r.ended_at is None,
            r.extension_id is None,
            r.first is None,
            r.started_at is None,
            r.report_type is None,
    {
        Request::new()
    }
}

/// Law: with no parameter set, the URL is exactly the static path with an
/// empty query string.
pub proof fn lemma_minimal_extensions_url(r: Request)
    requires
        r.after is None,
        r.ended_at is None,
        r.extension_id is None,
        r.first is None,
        r.started_at is None,
        r.report_type is None,
    ensures
        r.url_spec() == extensions_url_prefix(),
{
    assert(r.url_spec() =~= extensions_url_prefix());
}

/// Law: setting exactly one optional parameter emits exactly that one
/// `key=value` pair and nothing else.
pub proof fn lemma_single_param_extensions_url(r: Request)
    requires
        r.after is None,
        r.ended_at is None,
        r.extension_id is None,
        r.first is Some,
        r.started_at is None,
        r.report_type is None,
    ensures
        r.url_spec() == extensions_url_prefix() + pair_text(
            "first"@,
            dec_text(r.first.unwrap() as nat),
        ),
{
    assert(r.query_pairs() =~= Seq::<(Seq<char>, Seq<char>)>::empty().push(
        ("first"@, dec_text(r.first.unwrap() as nat)),
    ));
}

/// Law: with every parameter set, each one emits exactly one pair, in
/// the declared order `after`, `ended_at`, `extension_id`, `first`,
/// `started_at`, `type`.
pub proof fn lemma_full_extensions_url(r: Request)
    requires
        r.after is Some,
        r.ended_at is Some,
        r.extension_id is Some,
        r.first is Some,
        r.started_at is Some,
        r.report_type is Some,
    ensures
        r.url_spec() == extensions_url_prefix() + pair_text("after"@, r.after.unwrap()@) + "&"@
            + pair_text("ended_at"@, rfc3339_text(r.ended_at.unwrap())) + "&"@ + pair_text(
            "extension_id"@,
            r.extension_id.unwrap()@,
        ) + "&"@ + pair_text("first"@, dec_text(r.first.unwrap() as nat)) + "&"@ + pair_text(
            "started_at"@,
            rfc3339_text(r.started_at.unwrap()),
        ) + "&"@ + pair_text("type"@, report_type_text(r.report_type.unwrap())),
{
    let p1 = ("after"@, r.after.unwrap()@);
    let p2 = ("ended_at"@, rfc3339_text(r.ended_at.unwrap()));
    let p3 = ("extension_id"@, r.extension_id.unwrap()@);
    let p4 = ("first"@, dec_text(r.first.unwrap() as nat));
    let p5 = ("started_at"@, rfc3339_text(r.started_at.unwrap()));
    let p6 = ("type"@, report_type_text(r.report_type.unwrap()));
    let ps0 = Seq::<(Seq<char>, Seq<char>)>::empty();
    lemma_pairs_text_snoc(ps0, p1);
    lemma_pairs_text_snoc(ps0.push(p1), p2);
    lemma_pairs_text_snoc(ps0.push(p1).push(p2), p3);
    lemma_pairs_text_snoc(ps0.push(p1).push(p2).push(p3), p4);
    lemma_pairs_text_snoc(ps0.push(p1).push(p2).push(p3).push(p4), p5);
    lemma_pairs_text_snoc(ps0.push(p1).push(p2).push(p3).push(p4).push(p5), p6);
    assert(r.query_pairs() == ps0.push(p1).push(p2).push(p3).push(p4).push(p5).push(p6));
    assert(r.url_spec() =~= extensions_url_prefix() + pair_text("after"@, r.after.unwrap()@)
        + "&"@ + pair_text("ended_at"@, rfc3339_text(r.ended_at.unwrap())) + "&"@ + pair_text(
        "extension_id"@,
        r.extension_id.unwrap()@,
    ) + "&"@ + pair_text("first"@, dec_text(r.first.unwrap() as nat)) + "&"@ + pair_text(
        "started_at"@,
        rfc3339_text(r.started_at.unwrap()),
    ) + "&"@ + pair_text("type"@, report_type_text(r.report_type.unwrap())));
}

/// A report.
#[derive(PartialEq, Eq, Clone, Debug)]
pub struct Report {
    /// Extension id.
    pub extension_id: String,
    /// Date range.
    pub date_range: DateRange,
    /// Type of report.
    pub report_type: ReportType,
    /// URL.
    pub url: String,
}

/// A date range.
#[derive(PartialEq, Eq, Clone, Debug)]
pub struct DateRange {
    /// UTC timestamp for starting time.
    pub started_at: Timestamp,
    /// UTC timestamp for ending time.
    pub ended_at: Timestamp,
}

} // verus!
