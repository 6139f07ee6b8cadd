use vstd::prelude::*;

verus! {

/// The terminal failures an invocation can end with. Every failure aborts the
/// whole invocation before any byte of the stored record is changed.
#[derive(Clone, Copy, PartialEq, Eq, Structural, Debug)]
pub enum Error {
    /// The caller-supplied authority does not control the account.
    IncorrectAuthority,
    /// The stored bytes do not fit the record's fixed-width layout.
    MalformedRecord,
    /// The instruction bytes are missing, too short, or carry an unknown tag.
    InvalidInstruction,
}

} // verus!
