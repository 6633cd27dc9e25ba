//! The ways in which writing a value can fail.

use vstd::prelude::*;

verus! {

/// Why a value was not written.
#[derive(Debug, Clone, PartialEq, Eq)]
pub enum WriteError {
    /// A string whose UTF-8 form has `len` bytes, where `max` is the most
    /// that the protocol allows.
    StringTooLong { len: usize, max: usize },
    /// The structured-tag codec refused the tag; `message` is what it said.
    Io { message: String },
    /// The value's type has no wire form yet.
    Unimplemented,
}

} // verus!
