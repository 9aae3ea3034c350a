//! The opaque object store: host-owned growable containers that scripts
//! create, fill, read and must explicitly release, identified only by an
//! address-sized opaque handle.
//!
//! A handle packs an arena index and a generation counter into one 64-bit
//! token. A slot's generation moves past a handle when its container is
//! released, so a stale handle, a double release or a token that was never
//! issued is detected cheaply and reported as a precondition violation
//! instead of producing undefined behavior.

use vstd::prelude::*;

use crate::errors::BoundaryError;

verus! {

/// The arena index packed in the low half of a handle.
pub open spec fn slot_of(h: u64) -> int {
    (h & 0xFFFF_FFFFu64) as int
}

/// The generation counter packed in the high half of a handle.
pub open spec fn gen_of(h: u64) -> int {
    (h >> 32u64) as int
}

/// Two handles with the same index and generation are the same token.
proof fn lemma_handle_unique(a: u64, b: u64)
    requires
        slot_of(a) == slot_of(b),
        gen_of(a) == gen_of(b),
    ensures
        a == b,
{
    assert((a & 0xFFFF_FFFFu64) == (b & 0xFFFF_FFFFu64) && (a >> 32u64) == (b >> 32u64)
        ==> a == b) by (bit_vector);
}

/// The two halves of a handle are bounded by 32 bits.
proof fn lemma_handle_halves(h: u64)
    ensures
        0 <= slot_of(h) <= 0xFFFF_FFFF,
        0 <= gen_of(h) <= 0xFFFF_FFFF,
{
    assert((h & 0xFFFF_FFFFu64) <= 0xFFFF_FFFFu64) by (bit_vector);
    assert((h >> 32u64) <= 0xFFFF_FFFFu64) by (bit_vector);
}

/// Packs an arena index and a generation into one address-sized token.
fn pack_handle(index: usize, gen: u32) -> (h: u64)
    requires
        index <= 0xFFFF_FFFF,
    ensures
        slot_of(h) == index,
        gen_of(h) == gen,
{
    let h: u64 = ((gen as u64) << 32u64) | (index as u64);
    proof {
        let i: u64 = index as u64;
        let g: u64 = gen as u64;
        assert(i <= 0xFFFF_FFFFu64 && g <= 0xFFFF_FFFFu64 ==> (((g << 32u64) | i)
            & 0xFFFF_FFFFu64) == i && (((g << 32u64) | i) >> 32u64) == g) by (bit_vector);
    }
    h
}

/// One arena slot: its current generation, whether a container lives in
/// it, and that container's contents.
struct Slot {
    live: bool,
    gen: u32,
    data: Vec<u64>,
}

/// The arena of opaque containers. Each container owns its backing storage
/// exclusively; no aliasing exists between containers.
pub struct ObjectStore {
    slots: Vec<Slot>,
    retired: Ghost<Set<u64>>,
}

impl ObjectStore {
    /// The handle refers to a live container: its index holds a live slot
    /// whose generation matches the handle's.
    pub closed spec fn handle_valid(&self, h: u64) -> bool {
        &&& 0 <= slot_of(h) < self.slots@.len()
        &&& self.slots@[slot_of(h)].live
        &&& self.slots@[slot_of(h)].gen == gen_of(h)
    }

    /// The contents of the container a valid handle refers to.
    pub closed spec fn object(&self, h: u64) -> Seq<u64> {
        self.slots@[slot_of(h)].data@
    }

    /// Every handle released so far.
    pub closed spec fn retired(&self) -> Set<u64> {
        self.retired@
    }

    /// Every slot is spoken for and the arena cannot grow further.
    pub closed spec fn capacity_exhausted(&self) -> bool {
        &&& self.slots@.len() == 0x1_0000_0000
        &&& forall|j: int| 0 <= j < self.slots@.len() ==> ((#[trigger] self.slots@[j]).live
            || self.slots@[j].gen == 0xFFFF_FFFFu32)
    }

    /// Well-formedness: indices fit the low half of a handle, and every
    /// released handle points at a slot that has moved past it, so it can
    /// never come back to life.
    pub closed spec fn wf(&self) -> bool {
        &&& self.slots@.len() <= 0x1_0000_0000
        &&& forall|h: u64| #[trigger] self.retired@.contains(h) ==> {
            &&& 0 <= slot_of(h) < self.slots@.len()
            &&& (gen_of(h) < self.slots@[slot_of(h)].gen || (gen_of(h)
                == self.slots@[slot_of(h)].gen && !self.slots@[slot_of(h)].live
                && self.slots@[slot_of(h)].gen == 0xFFFF_FFFFu32))
        }
    }

    /// An empty store: no container lives in it and nothing was released.
    pub fn new() -> (r: ObjectStore)
        ensures
            r.wf(),
            r.retired() == Set::<u64>::empty(),
            forall|h: u64| !r.handle_valid(h),
    {
        ObjectStore { slots: Vec::new(), retired: Ghost(Set::empty()) }
    }

    /// Allocates a new empty container and returns its handle. Succeeds
    /// unless the arena is truly exhausted; the handle returned was never
    /// valid before and was never released before.
    pub fn create(&mut self) -> (r: Result<u64, BoundaryError>)
        requires
            old(self).wf(),
        ensures
            final(self).wf(),
            final(self).retired() == old(self).retired(),
            r is Err <==> old(self).capacity_exhausted(),
            match r {
                Ok(h) => {
                    &&& final(self).handle_valid(h)
                    &&& final(self).object(h) == Seq::<u64>::empty()
                    &&& !old(self).handle_valid(h)
                    &&& !old(self).retired().contains(h)
                    &&& forall|h2: u64| h2 != h ==> final(self).handle_valid(h2)
                        == old(self).handle_valid(h2)
                    &&& forall|h2: u64| h2 != h && old(self).handle_valid(h2)
                        ==> final(self).object(h2) == old(self).object(h2)
                },
                Err(e) => e == BoundaryError::AllocationFailure && *final(self) == *old(self),
            },
    {
        let n = self.slots.len();
        let mut i: usize = 0;
        while i < n
            invariant
                i <= n,
                n == self.slots@.len(),
                *self == *old(self),
                old(self).wf(),
                forall|j: int| 0 <= j < i ==> ((#[trigger] self.slots@[j]).live
                    || self.slots@[j].gen == 0xFFFF_FFFFu32),
            decreases n - i,
        {
            let reusable = !self.slots[i].live && self.slots[i].gen < 0xFFFF_FFFFu32;
            if reusable {
                let g = self.slots[i].gen;
                self.slots.set(i, Slot { live: true, gen: g, data: Vec::new() });
                let h = pack_handle(i, g);
                proof {
                    assert forall|h2: u64| h2 != h implies self.handle_valid(h2)
                        == old(self).handle_valid(h2) by {
                        if slot_of(h2) == i as int && gen_of(h2) == g as int {
                            lemma_handle_unique(h2, h);
                        }
                    }
                    assert(!old(self).retired().contains(h));
                    assert(self.wf());
                }
                return Ok(h);
            }
            i = i + 1;
        }
        if n <= 0xFFFF_FFFFusize {
            self.slots.push(Slot { live: true, gen: 0, data: Vec::new() });
            let h = pack_handle(n, 0);
            proof {
                assert forall|h2: u64| h2 != h implies self.handle_valid(h2)
                    == old(self).handle_valid(h2) by {
                    if slot_of(h2) == n as int && gen_of(h2) == 0 {
                        lemma_handle_unique(h2, h);
                    }
                }
                assert(!old(self).retired().contains(h));
                assert(self.wf());
            }
            Ok(h)
        } else {
            proof {
                assert(self.slots@.len() == 0x1_0000_0000);
            }
            Err(BoundaryError::AllocationFailure)
        }
    }

    /// Appends a value to the container the handle refers to; an invalid
    /// or released handle is a reported precondition violation and leaves
    /// every container as it stands.
    pub fn push(&mut self, h: u64, bits: u64) -> (r: Result<(), BoundaryError>)
        requires
            old(self).wf(),
        ensures
            final(self).wf(),
            final(self).retired() == old(self).retired(),
            forall|h2: u64| final(self).handle_valid(h2) == old(self).handle_valid(h2),
            r is Ok <==> old(self).handle_valid(h),
            match r {
                Ok(()) => final(self).object(h) == old(self).object(h).push(bits) && (forall|
                    h2: u64,
                | h2 != h && old(self).handle_valid(h2) ==> final(self).object(h2) == old(
                    self,
                ).object(h2)),
                Err(e) => e == BoundaryError::PreconditionViolation && *final(self) == *old(
                    self,
                ),
            },
    {
        let idx = (h & 0xFFFF_FFFFu64) as usize;
        let g = (h >> 32u64) as u32;
        proof {
            lemma_handle_halves(h);
        }
        if idx < self.slots.len() && self.slots[idx].live && self.slots[idx].gen == g {
            let slot = &mut self.slots[idx];
            slot.data.push(bits);
            proof {
                assert forall|h2: u64| h2 != h && old(self).handle_valid(h2) implies
                    self.object(h2) == old(self).object(h2) by {
                    if slot_of(h2) == idx as int {
                        lemma_handle_unique(h2, h);
                    }
                }
                assert(self.wf());
            }
            Ok(())
        } else {
            Err(BoundaryError::PreconditionViolation)
        }
    }

    /// Returns the element at `index` of the container the handle refers
    /// to. An index at or past the container's length is a reported bounds
    /// error, never unspecified data; an invalid handle is a reported
    /// precondition violation.
    pub fn get(&self, h: u64, index: usize) -> (r: Result<u64, BoundaryError>)
        ensures
            r is Ok <==> (self.handle_valid(h) && index < self.object(h).len()),
            match r {
                Ok(bits) => bits == self.object(h)[index as int],
                Err(e) => {
                    ||| (e == BoundaryError::PreconditionViolation && !self.handle_valid(h))
                    ||| (e == BoundaryError::BoundsError && self.handle_valid(h) && index
                        >= self.object(h).len())
                },
            },
    {
        let idx = (h & 0xFFFF_FFFFu64) as usize;
        let g = (h >> 32u64) as u32;
        proof {
            lemma_handle_halves(h);
        }
        if idx < self.slots.len() && self.slots[idx].live && self.slots[idx].gen == g {
            let slot = &self.slots[idx];
            if index < slot.data.len() {
                Ok(slot.data[index])
            } else {
                Err(BoundaryError::BoundsError)
            }
        } else {
            Err(BoundaryError::PreconditionViolation)
        }
    }

    /// Releases the container and invalidates the handle for good: the
    /// slot's generation moves past it. Releasing an invalid handle — a
    /// double release included — is a reported precondition violation,
    /// never a silent success.
    pub fn drop_object(&mut self, h: u64) -> (r: Result<(), BoundaryError>)
        requires
            old(self).wf(),
        ensures
            final(self).wf(),
            r is Ok <==> old(self).handle_valid(h),
            match r {
                Ok(()) => {
                    &&& !final(self).handle_valid(h)
                    &&& final(self).retired() == old(self).retired().insert(h)
                    &&& forall|h2: u64| h2 != h ==> final(self).handle_valid(h2)
                        == old(self).handle_valid(h2)
                    &&& forall|h2: u64| h2 != h && old(self).handle_valid(h2)
                        ==> final(self).object(h2) == old(self).object(h2)
                },
                Err(e) => e == BoundaryError::PreconditionViolation && *final(self) == *old(
                    self,
                ),
            },
    {
        let idx = (h & 0xFFFF_FFFFu64) as usize;
        let g = (h >> 32u64) as u32;
        proof {
            lemma_handle_halves(h);
        }
        if idx < self.slots.len() && self.slots[idx].live && self.slots[idx].gen == g {
            let next_gen: u32 = if g < 0xFFFF_FFFFu32 {
                g + 1
            } else {
                g
            };
            self.slots.set(idx, Slot { live: false, gen: next_gen, data: Vec::new() });
            self.retired = Ghost(self.retired@.insert(h));
            proof {
                assert forall|h2: u64| h2 != h implies self.handle_valid(h2)
                    == old(self).handle_valid(h2) by {
                    if slot_of(h2) == idx as int && gen_of(h2) == g as int {
                        lemma_handle_unique(h2, h);
                    }
                }
                assert(self.wf());
            }
            Ok(())
        } else {
            Err(BoundaryError::PreconditionViolation)
        }
    }
}

/// Law: a handle the store has released is never valid again, so every
/// later operation on it is rejected as a precondition violation rather
/// than reaching another container.
pub proof fn lemma_released_handle_stays_dead(s: &ObjectStore, h: u64)
    requires
        s.wf(),
        s.retired().contains(h),
    ensures
        !s.handle_valid(h),
{
}

} // verus!
