//! Rich text.

use vstd::prelude::*;

verus! {

/// A piece of rich text, held as its JSON document. The protocol's wire form
/// for rich text is not defined in this crate yet, so writing one fails.
#[derive(Debug, Clone, PartialEq, Eq, Hash)]
pub struct Component {
    pub json: String,
}

} // verus!
