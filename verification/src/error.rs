use vstd::prelude::*;

verus! {

/// The stage of a report run that failed.
#[derive(Debug, Clone, Copy, PartialEq, Eq, Structural)]
pub enum ReportErrorReason {
    /// A sprint date of the report is not a tracker date.
    BadDate,
    /// The response is not JSON, or an estimate total is missing from it.
    ReportParsingError,
    /// The request did not come back with a success status.
    FailedRequest,
}

/// Why a report could not be built.
#[derive(Debug, Clone, Copy, PartialEq, Eq, Structural)]
pub struct ReportError(pub ReportErrorReason);

impl ReportError {
    /// The sentence that describes each reason.
    pub open spec fn spec_description(self) -> Seq<char> {
        match self.0 {
            ReportErrorReason::BadDate => "Was not able to parse a date in the sprint report"@,
            ReportErrorReason::ReportParsingError => "Error parsing returned JSON"@,
            ReportErrorReason::FailedRequest => "Using basic auth failed for making a JIRA request"@,
        }
    }

    /// A sentence for the log that says what failed.
    pub fn description(&self) -> (r: &'static str)
        ensures
            r@ == self.spec_description(),
    {
        match self.0 {
            ReportErrorReason::BadDate => "Was not able to parse a date in the sprint report",
            ReportErrorReason::ReportParsingError => "Error parsing returned JSON",
            ReportErrorReason::FailedRequest => "Using basic auth failed for making a JIRA request",
        }
    }
}

/// What stops the bot outside of a report run.
#[derive(Debug, Clone, Copy, PartialEq, Eq, Structural)]
pub enum BotError {
    /// The configuration names no tracker that can be reached.
    ConfigMissing,
    /// The chat service did not say who the bot is.
    AuthFailure,
    /// A command lacks an argument.
    CommandUsageError,
}

} // verus!
