//! Output selection: which rendering the caller asked for, how much detail,
//! and the fixed labels that the renderers print for states and severities.

use vstd::prelude::*;

use crate::analyze::{AnalysisSummary, VersionState};
use crate::errors::{ErrorKind, ErrorKindView};

verus! {

/// What `str::to_lowercase` returns, as a function of the input characters
/// alone.
pub uninterp spec fn lower_of(s: Seq<char>) -> Seq<char>;

/// Relies on `str::to_lowercase`: the lowercase equivalent of the string,
/// determined by its characters alone.
#[verifier::external_body]
fn lowercase(s: &str) -> (r: String)
    ensures
        r@ == lower_of(s@),
{
    s.to_lowercase()
}

/// How analysis results are rendered: a human-readable table, a JSON blob,
/// or nothing at all.
#[derive(Debug, PartialEq, Eq, Structural, Clone, Copy)]
pub enum OutputFormat {
    Human,
    Json,
    NoOutput,
}

/// Which rows of the human-readable table are shown: only components that
/// are not okay, or all of them.
#[derive(Debug, PartialEq, Eq, Structural, Clone, Copy)]
pub enum OutputDetail {
    NotOkay,
    All,
}

/// How the presenter is configured.
#[derive(Debug)]
pub struct OutputConfig {
    pub detail: OutputDetail,
    pub format: OutputFormat,
    pub color: bool,
}

/// Spec-level image of a format-selector parse.
pub open spec fn format_result_view(r: Result<OutputFormat, ErrorKind>) -> Result<
    OutputFormat,
    ErrorKindView,
> {
    match r {
        Result::Ok(f) => Result::Ok(f),
        Result::Err(e) => Result::Err(e.deep_view()),
    }
}

/// Spec-level image of a detail-selector parse.
pub open spec fn detail_result_view(r: Result<OutputDetail, ErrorKind>) -> Result<
    OutputDetail,
    ErrorKindView,
> {
    match r {
        Result::Ok(d) => Result::Ok(d),
        Result::Err(e) => Result::Err(e.deep_view()),
    }
}

/// What parsing a format selector yields: the match is case-insensitive, and
/// an unrecognized selector is reported back verbatim.
pub open spec fn spec_output_format(s: Seq<char>) -> Result<OutputFormat, ErrorKindView> {
    if lower_of(s) == "human"@ {
        Result::Ok(OutputFormat::Human)
    } else if lower_of(s) == "json"@ {
        Result::Ok(OutputFormat::Json)
    } else if lower_of(s) == "none"@ {
        Result::Ok(OutputFormat::NoOutput)
    } else {
        Result::Err(ErrorKindView::InvalidOutputFormat(s))
    }
}

/// What parsing a detail selector yields.
pub open spec fn spec_output_detail(s: Seq<char>) -> Result<OutputDetail, ErrorKindView> {
    if lower_of(s) == "nok"@ {
        Result::Ok(OutputDetail::NotOkay)
    } else if lower_of(s) == "all"@ {
        Result::Ok(OutputDetail::All)
    } else {
        Result::Err(ErrorKindView::InvalidOutputDetail(s))
    }
}

impl OutputFormat {
    /// Parses a format selector, case-insensitively.
    pub fn from_str(s: &str) -> (r: Result<OutputFormat, ErrorKind>)
        ensures
            format_result_view(r) == spec_output_format(s@),
    {
        let lower = lowercase(s);
        if lower == "human".to_owned() {
            Result::Ok(OutputFormat::Human)
        } else if lower == "json".to_owned() {
            Result::Ok(OutputFormat::Json)
        } else if lower == "none".to_owned() {
            Result::Ok(OutputFormat::NoOutput)
        } else {
            Result::Err(ErrorKind::InvalidOutputFormat(s.to_owned()))
        }
    }
}

impl OutputDetail {
    /// Parses a detail selector, case-insensitively.
    pub fn from_str(s: &str) -> (r: Result<OutputDetail, ErrorKind>)
        ensures
            detail_result_view(r) == spec_output_detail(s@),
    {
        let lower = lowercase(s);
        if lower == "nok".to_owned() {
            Result::Ok(OutputDetail::NotOkay)
        } else if lower == "all".to_owned() {
            Result::Ok(OutputDetail::All)
        } else {
            Result::Err(ErrorKind::InvalidOutputDetail(s.to_owned()))
        }
    }
}

/// The fixed label that the renderers print for a freshness state.
pub fn version_state_label(state: VersionState) -> (r: &'static str)
    ensures
        state == VersionState::Latest ==> r@ == "Latest"@,
        state == VersionState::Outdated ==> r@ == "Outdated"@,
        state == VersionState::Unknown ==> r@ == "Unknown"@,
{
    match state {
        VersionState::Latest => "Latest",
        VersionState::Outdated => "Outdated",
        VersionState::Unknown => "Unknown",
    }
}

/// The fixed label that the renderers print for a severity classification.
pub fn summary_label(summary: AnalysisSummary) -> (r: &'static str)
    ensures
        summary == AnalysisSummary::Okay ==> r@ == "Ok"@,
        summary == AnalysisSummary::Outdated ==> r@ == "Outdated"@,
        summary == AnalysisSummary::Unknown ==> r@ == "Unknown"@,
        summary == AnalysisSummary::Vulnerable ==> r@ == "Vulnerable"@,
        summary == AnalysisSummary::Failed ==> r@ == "Failed"@,
{
    match summary {
        AnalysisSummary::Okay => "Ok",
        AnalysisSummary::Outdated => "Outdated",
        AnalysisSummary::Unknown => "Unknown",
        AnalysisSummary::Vulnerable => "Vulnerable",
        AnalysisSummary::Failed => "Failed",
    }
}

} // verus!
