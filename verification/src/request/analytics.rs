//! Shared pieces of the analytics requests.

use vstd::prelude::*;

verus! {

/// A report type.
#[derive(PartialEq, Eq, Clone, Copy, Debug)]
pub enum ReportType {
    /// Overview V1.
    OverviewV1,
    /// Overview V2.
    OverviewV2,
}

/// The query-parameter rendering of a report type.
pub open spec fn report_type_text(t: ReportType) -> Seq<char> {
    match t {
        ReportType::OverviewV1 => "overview_v1"@,
        ReportType::OverviewV2 => "overview_v2"@,
    }
}

/// Renders a report type as its query-parameter value.
pub fn render_report_type(t: ReportType) -> (r: &'static str)
    ensures
        r@ == report_type_text(t),
{
    match t {
        ReportType::OverviewV1 => "overview_v1",
        ReportType::OverviewV2 => "overview_v2",
    }
}

} // verus!
