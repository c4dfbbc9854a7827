//! The validation errors the create operation can produce, each carrying a
//! fixed human-readable message.

use vstd::prelude::*;

verus! {

/// The only two failure conditions of this crate: one per text field whose
/// character count exceeds its cap.
#[derive(Clone, Copy, Debug, PartialEq, Eq, Structural)]
pub enum ErrorCode {
    TopicTooLong,
    ContentTooLong,
}

impl ErrorCode {
    /// The fixed message attached to each error kind.
    pub open spec fn spec_message(self) -> Seq<char> {
        match self {
            ErrorCode::TopicTooLong => "Topic is too long"@,
            ErrorCode::ContentTooLong => "Content is too long"@,
        }
    }

    /// Returns the fixed human-readable message for this error kind.
    pub fn message(&self) -> (m: &'static str)
        ensures
            m@ == self.spec_message(),
    {
        match self {
            ErrorCode::TopicTooLong => "Topic is too long",
            ErrorCode::ContentTooLong => "Content is too long",
        }
    }
}

} // verus!
