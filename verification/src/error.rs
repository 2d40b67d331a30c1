//! What can go wrong in the library.

use vstd::prelude::*;

verus! {

/// The failures that the library reports to its caller.
#[derive(Clone, Copy, Debug, PartialEq, Eq, Structural)]
pub enum MatchError {
    /// No user has the given id.
    UserNotFound,
    /// No pairing has the given id.
    DatingNotFound,
    /// A location filter that needs a city, on a profile without one.
    InvalidPreferenceState,
    /// The profile names no dating purpose.
    PurposeNotSet,
    /// A new profile lacks a field that every profile must have.
    IncompleteProfile,
    /// Stored subject bits outside the known subjects.
    InvalidSubjectBits,
    /// Stored purpose bits outside the known purposes.
    InvalidPurposeBits,
    /// The store cannot take another row.
    StoreFull,
    /// A graduation year so far from today that it stands for no grade.
    GradeOutOfRange,
}

} // verus!
