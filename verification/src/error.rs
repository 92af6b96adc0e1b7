//! The outcomes that end a report early.

use vstd::prelude::*;

verus! {

/// Why a report could not be produced.
#[derive(Clone, Copy, Debug, PartialEq, Eq, Structural)]
pub enum ReportError {
    /// The configuration has fewer than three lines.
    ShortConfig,
    /// The channel lookup matched no channel.
    NoChannelFound,
    /// The channel has no video to choose from.
    NoVideosFound,
    /// A publish timestamp is not a valid RFC 3339 date and time.
    BadTimestamp,
}

impl ReportError {
    /// The text of the message shown for this outcome.
    pub open spec fn message_text(self) -> Seq<char> {
        match self {
            ReportError::ShortConfig => "Configuration needs three lines"@,
            ReportError::NoChannelFound => "No channel found"@,
            ReportError::NoVideosFound => "No videos found"@,
            ReportError::BadTimestamp => "Invalid publish timestamp"@,
        }
    }

    /// The message shown for this outcome.
    pub fn message(&self) -> (r: String)
        ensures
            r@ == self.message_text(),
    {
        match self {
            ReportError::ShortConfig => String::from_str("Configuration needs three lines"),
            ReportError::NoChannelFound => String::from_str("No channel found"),
            ReportError::NoVideosFound => String::from_str("No videos found"),
            ReportError::BadTimestamp => String::from_str("Invalid publish timestamp"),
        }
    }
}

} // verus!
