//! Structured tags. The tag codec is a collaborator outside this crate; what
//! crosses the boundary is the codec's answer for a tag.

use vstd::prelude::*;

verus! {

/// What the structured-tag codec made of one tag.
#[derive(Debug, Clone, PartialEq, Eq)]
pub enum EncodedTag {
    /// The tag's encoding.
    Bytes(Vec<u8>),
    /// The codec's message, where it could not encode the tag.
    Failed(String),
}

} // verus!
