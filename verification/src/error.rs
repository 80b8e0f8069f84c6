//! Errors of the scraping and parsing steps.
use vstd::prelude::*;

verus! {

/// Why a page, a text or a number could not be turned into data.
#[derive(Debug, Clone, Copy, PartialEq, Eq, Structural)]
pub enum ScrapeError {
    /// The regular expression engine rejected a pattern.
    PatternRejected,
    /// The HTML parser rejected a page.
    HtmlRejected,
    /// A post row has no title link.
    MissingLink,
    /// A text that should hold digits holds none.
    NoNumber,
    /// A number does not parse as an `i32`.
    BadNumber,
    /// Year, month and day do not form a calendar date.
    BadDate,
}

} // verus!
