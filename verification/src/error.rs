//! The ways in which a run can fail.

use vstd::prelude::*;

use crate::numeral::decimal;
use crate::numeral::to_decimal;
use crate::text::append;
use crate::text::chars_of;
use crate::text::string_of;

verus! {

/// Why a run was given up.
#[derive(Debug)]
pub enum ScrapeError {
    /// The stored configuration could not be read as one.
    Config(String),
    /// The request did not get through.
    Transport(String),
    /// The site answered with a status outside 200 to 299.
    Fetch(u16),
    /// A selector or a pattern of the extraction was not accepted.
    Extraction(ExtractionFault),
    /// A file of the run could not be read or written.
    Persistence(String),
}

/// What the extraction could not set up.
#[derive(Clone, Copy, Debug, PartialEq, Eq, Structural)]
pub enum ExtractionFault {
    /// One of the patterns for the embedded payload.
    Pattern,
    /// One of the selectors for the markup.
    Selector,
}

/// What is said of an error, for a log or an answer.
pub open spec fn description_of(error: ScrapeError) -> Seq<char> {
    match error {
        ScrapeError::Config(detail) => "Failed to load config: "@ + detail@,
        ScrapeError::Transport(detail) => "Failed to send HTTP request: "@ + detail@,
        ScrapeError::Fetch(status) => "HTTP request failed with status: "@ + decimal(status as nat),
        ScrapeError::Extraction(ExtractionFault::Pattern) => "Failed to parse payload pattern"@,
        ScrapeError::Extraction(ExtractionFault::Selector) => "Failed to parse selector"@,
        ScrapeError::Persistence(detail) => "Failed to read or write: "@ + detail@,
    }
}

fn with_detail(lead: &str, detail: &str) -> (text: String)
    ensures
        text@ == lead@ + detail@,
{
    let mut chars = chars_of(lead);
    append(&mut chars, &chars_of(detail));
    string_of(&chars)
}

impl ScrapeError {
    /// What is said of the error, for a log or an answer.
    pub fn describe(&self) -> (text: String)
        ensures
            text@ == description_of(*self),
    {
        match self {
            ScrapeError::Config(detail) => with_detail("Failed to load config: ", detail.as_str()),
            ScrapeError::Transport(detail) => with_detail(
                "Failed to send HTTP request: ",
                detail.as_str(),
            ),
            ScrapeError::Fetch(status) => with_detail(
                "HTTP request failed with status: ",
                to_decimal(*status as u64).as_str(),
            ),
            ScrapeError::Extraction(ExtractionFault::Pattern) => {
                "Failed to parse payload pattern".to_owned()
            },
            ScrapeError::Extraction(ExtractionFault::Selector) => {
                "Failed to parse selector".to_owned()
            },
            ScrapeError::Persistence(detail) => with_detail(
                "Failed to read or write: ",
                detail.as_str(),
            ),
        }
    }
}

} // verus!
