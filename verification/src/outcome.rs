//! What a write does, as a value: the bytes that reach the sink and the
//! failure that ends the write, if one does. Every writer of this crate
//! appends the bytes of its outcome to the sink and returns the outcome's
//! failure, so composite writes are described by composing outcomes.

use crate::error::WriteError;
use vstd::prelude::*;

verus! {

/// The effect of one write on an append-only sink.
pub struct Outcome {
    /// The bytes appended to the sink.
    pub bytes: Seq<u8>,
    /// The error returned; `None` for success.
    pub failure: Option<WriteError>,
}

impl Outcome {
    /// This write and then `next`, which is not begun if this one fails.
    pub open spec fn followed_by(self, next: Outcome) -> Outcome {
        if self.failure is None {
            Outcome { bytes: self.bytes + next.bytes, failure: next.failure }
        } else {
            self
        }
    }

    /// `r` is the result that a writer with this outcome returns.
    pub open spec fn reported_as(self, r: Result<(), WriteError>) -> bool {
        match r {
            Ok(_) => self.failure is None,
            Err(e) => self.failure == Some(e),
        }
    }
}

/// The write that appends `bytes` and succeeds.
pub open spec fn wrote(bytes: Seq<u8>) -> Outcome {
    Outcome { bytes, failure: None }
}

/// The write that appends nothing and fails with `e`.
pub open spec fn refused(e: WriteError) -> Outcome {
    Outcome { bytes: Seq::empty(), failure: Some(e) }
}

/// The writes of `outs` one after another, up to and including the first
/// that fails.
pub open spec fn in_turn(outs: Seq<Outcome>) -> Outcome
    decreases outs.len(),
{
    if outs.len() == 0 {
        wrote(Seq::empty())
    } else {
        in_turn(outs.drop_last()).followed_by(outs.last())
    }
}

/// The byte strings of `parts` joined end to end.
pub open spec fn joined(parts: Seq<Seq<u8>>) -> Seq<u8>
    decreases parts.len(),
{
    if parts.len() == 0 {
        Seq::empty()
    } else {
        joined(parts.drop_last()) + parts.last()
    }
}

/// Once the first `k` writes have failed, the rest adds nothing.
pub proof fn lemma_in_turn_stops(outs: Seq<Outcome>, k: int)
    requires
        0 <= k <= outs.len(),
        in_turn(outs.take(k)).failure is Some,
    ensures
        in_turn(outs) == in_turn(outs.take(k)),
    decreases outs.len(),
{
    if k == outs.len() {
        assert(outs.take(k) =~= outs);
    } else {
        assert(outs.drop_last().take(k) =~= outs.take(k));
        lemma_in_turn_stops(outs.drop_last(), k);
    }
}

/// Where no write fails, the sink receives the bytes of all of them, joined.
pub proof fn lemma_in_turn_written(outs: Seq<Outcome>)
    requires
        forall|i: int| 0 <= i < outs.len() ==> (#[trigger] outs[i]).failure is None,
    ensures
        in_turn(outs) == wrote(joined(outs.map_values(|o: Outcome| o.bytes))),
    decreases outs.len(),
{
    let parts = outs.map_values(|o: Outcome| o.bytes);
    if outs.len() > 0 {
        lemma_in_turn_written(outs.drop_last());
        assert(parts.drop_last() =~= outs.drop_last().map_values(|o: Outcome| o.bytes));
    }
}

} // verus!
