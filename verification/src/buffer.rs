//! The state buffer: a fixed-arity sequence of numeric slots owned by the
//! host and mutated by the active routine during its invocation window.
//!
//! Slot values are the bit patterns of the host's fixed-width numbers; the
//! bridge stores and moves them without arithmetic, so they are carried here
//! as plain 64-bit words.

use vstd::prelude::*;

use crate::errors::BoundaryError;

verus! {

/// One write issued by the routine at the boundary: store `bits` into
/// slot `slot` of the state buffer.
#[derive(Clone, Copy, Debug, PartialEq, Eq, Structural)]
pub struct SlotWrite {
    pub slot: usize,
    pub bits: u64,
}

/// Every write of the transcript targets a slot below `arity`.
pub open spec fn writes_in_bounds(ws: Seq<SlotWrite>, arity: nat) -> bool {
    forall|j: int| 0 <= j < ws.len() ==> (#[trigger] ws[j]).slot < arity
}

/// The index of the first out-of-bounds write in `ws`, or `ws.len()` when
/// every write is in bounds.
pub open spec fn first_oob(ws: Seq<SlotWrite>, arity: nat) -> int
    decreases ws.len(),
{
    if ws.len() == 0 {
        0
    } else if ws[0].slot >= arity {
        0
    } else {
        1 + first_oob(ws.skip(1), arity)
    }
}

/// The buffer obtained by applying the writes of `ws` in order; a write out
/// of bounds leaves the buffer as it stands.
pub open spec fn apply_writes(s: Seq<u64>, ws: Seq<SlotWrite>) -> Seq<u64>
    decreases ws.len(),
{
    if ws.len() == 0 {
        s
    } else {
        let t = apply_writes(s, ws.drop_last());
        let w = ws.last();
        if w.slot < t.len() {
            t.update(w.slot as int, w.bits)
        } else {
            t
        }
    }
}

/// A fixed-size ordered sequence of numeric slots. The arity is chosen at
/// construction and never changes; the values persist across recompiles.
pub struct StateBuffer {
    slots: Vec<u64>,
}

impl StateBuffer {
    /// The mathematical model: the slot values in order.
    pub closed spec fn view(&self) -> Seq<u64> {
        self.slots@
    }

    /// The number of slots.
    pub fn arity(&self) -> (r: usize)
        ensures
            r == self@.len(),
    {
        self.slots.len()
    }

    /// A buffer of `arity` slots, all zero.
    pub fn new(arity: usize) -> (r: StateBuffer)
        ensures
            r@.len() == arity,
            forall|i: int| 0 <= i < arity ==> r@[i] == 0u64,
    {
        let mut slots: Vec<u64> = Vec::new();
        let mut i: usize = 0;
        while i < arity
            invariant
                i <= arity,
                slots@.len() == i,
                forall|j: int| 0 <= j < i ==> slots@[j] == 0u64,
            decreases arity - i,
        {
            slots.push(0u64);
            i = i + 1;
        }
        StateBuffer { slots }
    }

    /// Reads the slot at `slot`; an index past the arity is a reported
    /// bounds error, never unspecified data.
    pub fn read_slot(&self, slot: usize) -> (r: Result<u64, BoundaryError>)
        ensures
            slot < self@.len() ==> r == Ok::<u64, BoundaryError>(self@[slot as int]),
            slot >= self@.len() ==> r == Err::<u64, BoundaryError>(BoundaryError::BoundsError),
    {
        if slot < self.slots.len() {
            Ok(self.slots[slot])
        } else {
            Err(BoundaryError::BoundsError)
        }
    }

    /// Stores `bits` into the slot at `slot`; an index past the arity is a
    /// reported bounds error and leaves the buffer unchanged.
    pub fn write_slot(&mut self, slot: usize, bits: u64) -> (r: Result<(), BoundaryError>)
        ensures
            slot < old(self)@.len() ==> r == Ok::<(), BoundaryError>(())
                && final(self)@ == old(self)@.update(slot as int, bits),
            slot >= old(self)@.len() ==> r == Err::<(), BoundaryError>(BoundaryError::BoundsError)
                && final(self)@ == old(self)@,
    {
        if slot < self.slots.len() {
            self.slots.set(slot, bits);
            Ok(())
        } else {
            Err(BoundaryError::BoundsError)
        }
    }

    /// Applies one invocation's transcript of slot writes in order, stopping
    /// at the first write out of bounds, which is reported as a bounds error.
    ///
    /// The resulting buffer is pinned to a function of the starting buffer
    /// and the transcript alone: an invocation keeps no hidden state behind
    /// the boundary, so replaying the same transcript on the same buffer
    /// yields the same buffer.
    pub fn apply_frame_writes(&mut self, ws: &Vec<SlotWrite>) -> (r: Result<(), BoundaryError>)
        ensures
            final(self)@ == apply_writes(
                old(self)@,
                ws@.take(first_oob(ws@, old(self)@.len() as nat)),
            ),
            final(self)@.len() == old(self)@.len(),
            r == Ok::<(), BoundaryError>(()) <==> writes_in_bounds(ws@, old(self)@.len() as nat),
            r != Ok::<(), BoundaryError>(()) ==> r == Err::<(), BoundaryError>(
                BoundaryError::BoundsError,
            ),
    {
        let ghost arity: nat = self.slots@.len() as nat;
        let ghost s0: Seq<u64> = self.slots@;
        let mut i: usize = 0;
        while i < ws.len()
            invariant
                i <= ws@.len(),
                s0 == old(self)@,
                self.slots@.len() == s0.len(),
                arity == s0.len(),
                forall|j: int| 0 <= j < i ==> (#[trigger] ws@[j]).slot < arity,
                self.slots@ == apply_writes(s0, ws@.take(i as int)),
            decreases ws@.len() - i,
        {
            let w = ws[i];
            proof {
                lemma_first_oob_prefix(ws@, arity, i as int);
                assert(ws@.take(i as int + 1).drop_last() =~= ws@.take(i as int));
                assert(ws@.take(i as int + 1).last() == ws@[i as int]);
            }
            if w.slot < self.slots.len() {
                self.slots.set(w.slot, w.bits);
            } else {
                proof {
                    assert(ws@[i as int].slot >= arity);
                    assert(first_oob(ws@, arity) == i as int);
                }
                return Err(BoundaryError::BoundsError);
            }
            i = i + 1;
        }
        proof {
            assert(ws@.take(i as int) =~= ws@);
            lemma_first_oob_all_in(ws@, arity);
        }
        Ok(())
    }
}

/// The first out-of-bounds index of a transcript is never negative.
proof fn lemma_first_oob_nonneg(ws: Seq<SlotWrite>, arity: nat)
    ensures
        first_oob(ws, arity) >= 0,
    decreases ws.len(),
{
    if ws.len() > 0 && ws[0].slot < arity {
        lemma_first_oob_nonneg(ws.skip(1), arity);
    }
}

/// In a transcript whose first `i` writes are in bounds, the first
/// out-of-bounds index is `i` exactly when the write at `i` is out of
/// bounds, and lies past `i` otherwise.
proof fn lemma_first_oob_prefix(ws: Seq<SlotWrite>, arity: nat, i: int)
    requires
        0 <= i < ws.len(),
        forall|j: int| 0 <= j < i ==> (#[trigger] ws[j]).slot < arity,
    ensures
        ws[i].slot >= arity ==> first_oob(ws, arity) == i,
        ws[i].slot < arity ==> first_oob(ws, arity) >= i + 1,
    decreases i,
{
    let wsk = ws.skip(1);
    if i == 0 {
        if ws[0].slot < arity {
            lemma_first_oob_nonneg(wsk, arity);
        }
    } else {
        assert(ws[0].slot < arity);
        assert forall|j: int| 0 <= j < i - 1 implies (#[trigger] wsk[j]).slot < arity by {
            assert(wsk[j] == ws[j + 1]);
        }
        assert(wsk[i - 1] == ws[i]);
        lemma_first_oob_prefix(wsk, arity, i - 1);
    }
}

/// A transcript with every write in bounds has its first out-of-bounds
/// index at its very length.
proof fn lemma_first_oob_all_in(ws: Seq<SlotWrite>, arity: nat)
    requires
        forall|j: int| 0 <= j < ws.len() ==> (#[trigger] ws[j]).slot < arity,
    ensures
        first_oob(ws, arity) == ws.len(),
    decreases ws.len(),
{
    let wsk = ws.skip(1);
    if ws.len() > 0 {
        assert(ws[0].slot < arity);
        assert forall|j: int| 0 <= j < ws.len() - 1 implies (#[trigger] wsk[j]).slot < arity by {
            assert(wsk[j] == ws[j + 1]);
        }
        lemma_first_oob_all_in(wsk, arity);
    }
}

} // verus!
