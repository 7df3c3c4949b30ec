//! The report record that every category evaluation produces.

use vstd::prelude::*;

verus! {

/// The abstract value of a report: every field as a character sequence.
#[verifier::ext_equal]
pub struct ReportView {
    pub category: Seq<char>,
    pub status: Seq<char>,
    pub details: Seq<Seq<char>>,
    pub warnings: Seq<Seq<char>>,
    pub errors: Seq<Seq<char>>,
}

/// One category's findings: its name, a status that the current design
/// always leaves at "OK", the informational lines in evaluation order, the
/// warnings, and the error lines reserved for fatal per-category failures,
/// which stay empty because unreadable files are skipped, not surfaced.
#[derive(Debug, PartialEq, Eq)]
pub struct AnalysisResult {
    pub category: String,
    pub status: String,
    pub details: Vec<String>,
    pub warnings: Vec<String>,
    pub errors: Vec<String>,
}

impl View for AnalysisResult {
    type V = ReportView;

    open spec fn view(&self) -> ReportView {
        ReportView {
            category: self.category@,
            status: self.status@,
            details: self.details.deep_view(),
            warnings: self.warnings.deep_view(),
            errors: self.errors.deep_view(),
        }
    }
}

impl DeepView for AnalysisResult {
    type V = ReportView;

    open spec fn deep_view(&self) -> ReportView {
        self.view()
    }
}

} // verus!
