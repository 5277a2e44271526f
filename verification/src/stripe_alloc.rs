//! The per-stripe free-slot allocator.
//!
//! Each stripe of the pool owns one [`StripeAllocator`] managing a fixed set
//! of slots. A slot can be free or in use, and it remembers the *affinity* —
//! the `(module, memory index)` pair it last served — so that a later request
//! for the same pair can reuse the slot while its copy-on-write image is
//! still warm. The number of free slots that keep an affinity is bounded by
//! a warm-slot budget; beyond it, the slot freed longest ago loses its
//! affinity.
//!
//! All searches are deterministic: the lowest slot id wins.

use vstd::prelude::*;

verus! {

/// The affinity key: one defined memory of one module.
#[derive(Clone, Copy, Debug, PartialEq, Eq, Structural)]
pub struct MemoryInModule {
    /// Identifier of the compiled module.
    pub module: u64,
    /// Index of the defined memory within that module.
    pub memory_index: u32,
}

/// A stripe-local slot identifier.
#[derive(Clone, Copy, Debug, PartialEq, Eq, Structural)]
pub struct SlotId(pub u32);

/// The state of one slot in a stripe.
#[derive(Clone, Copy, Debug)]
pub struct Slot {
    /// Whether the slot is currently handed out.
    pub used: bool,
    /// The `(module, memory index)` pair the slot last served, if any.
    pub affinity: Option<MemoryInModule>,
    /// When the slot was last freed; orders warm slots for eviction.
    pub stamp: u64,
}

/// How many slots of `v` are free.
pub open spec fn count_free(v: Seq<Slot>) -> int
    decreases v.len(),
{
    if v.len() == 0 {
        0
    } else {
        count_free(v.drop_last()) + if !v.last().used {
            1int
        } else {
            0int
        }
    }
}

/// How many slots of `v` are warm: free with a retained affinity.
pub open spec fn count_warm(v: Seq<Slot>) -> int
    decreases v.len(),
{
    if v.len() == 0 {
        0
    } else {
        count_warm(v.drop_last()) + if !v.last().used && v.last().affinity is Some {
            1int
        } else {
            0int
        }
    }
}

/// How many slots of `v` retain the affinity `a`, free or used.
pub open spec fn count_affine(v: Seq<Slot>, a: MemoryInModule) -> int
    decreases v.len(),
{
    if v.len() == 0 {
        0
    } else {
        count_affine(v.drop_last(), a) + if v.last().affinity == Some(a) {
            1int
        } else {
            0int
        }
    }
}

/// The first index at or after `i` whose slot is free and retains `a`;
/// `v.len()` if there is none.
pub open spec fn find_free_affine_from(v: Seq<Slot>, a: MemoryInModule, i: int) -> int
    decreases v.len() - i,
{
    if i < 0 || i >= v.len() {
        v.len() as int
    } else if !v[i].used && v[i].affinity == Some(a) {
        i
    } else {
        find_free_affine_from(v, a, i + 1)
    }
}

/// The first index at or after `i` whose slot is free; `v.len()` if none.
pub open spec fn find_free_from(v: Seq<Slot>, i: int) -> int
    decreases v.len() - i,
{
    if i < 0 || i >= v.len() {
        v.len() as int
    } else if !v[i].used {
        i
    } else {
        find_free_from(v, i + 1)
    }
}

/// The warm slot at or after `i` with the smallest stamp (lowest index on
/// ties); `v.len()` if there is none.
pub open spec fn oldest_warm_from(v: Seq<Slot>, i: int) -> int
    decreases v.len() - i,
{
    if i < 0 || i >= v.len() {
        v.len() as int
    } else {
        let rest = oldest_warm_from(v, i + 1);
        if !v[i].used && v[i].affinity is Some {
            if rest < v.len() && v[rest].stamp < v[i].stamp {
                rest
            } else {
                i
            }
        } else {
            rest
        }
    }
}

/// The slot a request with affinity `a` receives: the first warm match, else
/// the first free slot, else `v.len()` for "stripe full".
pub open spec fn spec_alloc_choice(v: Seq<Slot>, affinity: Option<MemoryInModule>) -> int {
    if affinity matches Some(a) && find_free_affine_from(v, a, 0) < v.len() {
        find_free_affine_from(v, affinity.unwrap(), 0)
    } else {
        find_free_from(v, 0)
    }
}

/// The slot states after freeing slot `id` at time `stamp` under warm budget
/// `max_warm`: the slot becomes free and keeps its affinity; if the warm
/// count then exceeds the budget, the oldest warm slot loses its affinity.
pub open spec fn spec_after_free(v: Seq<Slot>, id: int, stamp: u64, max_warm: int) -> Seq<Slot> {
    let freed = Slot { used: false, affinity: v[id].affinity, stamp };
    let mid = v.update(id, freed);
    if count_warm(mid) > max_warm {
        let evict = oldest_warm_from(mid, 0);
        mid.update(evict, Slot { used: false, affinity: None, stamp: mid[evict].stamp })
    } else {
        mid
    }
}

/// A fixed-capacity, affinity-aware free-slot allocator for one stripe.
#[derive(Debug)]
pub struct StripeAllocator {
    /// How many free slots may retain an affinity before eviction starts.
    max_unused_warm_slots: u32,
    /// The slots of this stripe.
    slots: Vec<Slot>,
    /// Source of eviction stamps; increases at every free until saturated.
    clock: u64,
}

impl StripeAllocator {
    /// Slot ids fit the 32-bit identifier type.
    #[verifier::type_invariant]
    spec fn slot_count_fits(self) -> bool {
        self.slots@.len() <= u32::MAX
    }

    /// The slot states, for specification purposes.
    pub closed spec fn view(&self) -> Seq<Slot> {
        self.slots@
    }

    /// The warm-slot budget, for specification purposes.
    pub closed spec fn spec_max_warm(&self) -> int {
        self.max_unused_warm_slots as int
    }

    /// The current eviction clock, for specification purposes.
    pub closed spec fn spec_clock(&self) -> u64 {
        self.clock
    }

    /// Create an allocator of `capacity` slots, all free and without
    /// affinity.
    pub fn new(capacity: u32, max_unused_warm_slots: u32) -> (r: StripeAllocator)
        ensures
            r@.len() == capacity,
            forall|i: int|
                0 <= i < capacity ==> r@[i] == (Slot { used: false, affinity: None, stamp: 0u64 }),
            r.spec_max_warm() == max_unused_warm_slots,
            count_free(r@) == capacity,
    {
        let blank = Slot { used: false, affinity: None, stamp: 0 };
        let slots: Vec<Slot> = vec![blank; capacity as usize];
        proof {
            lemma_count_free_all_free(slots@);
        }
        StripeAllocator { max_unused_warm_slots, slots, clock: 0 }
    }

    /// How many slots the stripe has.
    pub fn len(&self) -> (r: usize)
        ensures
            r == self@.len(),
    {
        self.slots.len()
    }

    /// How many slots are currently free.
    pub fn num_empty_slots(&self) -> (r: usize)
        ensures
            r == count_free(self@),
    {
        let mut n: usize = 0;
        let mut i: usize = 0;
        while i < self.slots.len()
            invariant
                i <= self.slots.len(),
                n == count_free(self.slots@.take(i as int)),
                n <= i,
            decreases self.slots.len() - i,
        {
            proof {
                assert(self.slots@.take(i + 1).drop_last() =~= self.slots@.take(i as int));
                assert(self.slots@.take(i + 1).last() == self.slots@[i as int]);
            }
            if !self.slots[i].used {
                n = n + 1;
            }
            i = i + 1;
        }
        proof {
            assert(self.slots@.take(self.slots@.len() as int) =~= self.slots@);
        }
        n
    }

    /// Whether no slot is handed out.
    pub fn is_empty(&self) -> (r: bool)
        ensures
            r == (count_free(self@) == self@.len()),
    {
        self.num_empty_slots() == self.len()
    }

    /// Hand out a free slot, preferring the lowest-id warm match for
    /// `affinity`, else the lowest-id free slot. Returns `None` — and
    /// changes nothing — only when every slot is in use. The chosen slot
    /// records the requested affinity.
    pub fn allocate(&mut self, affinity: Option<MemoryInModule>) -> (r: Option<SlotId>)
        ensures
            r is None <==> count_free(old(self)@) == 0,
            r is None ==> *final(self) == *old(self),
            r matches Some(id) ==> {
                &&& id.0 < old(self)@.len()
                &&& id.0 == spec_alloc_choice(old(self)@, affinity)
                &&& !old(self)@[id.0 as int].used
                &&& final(self)@ == old(self)@.update(
                    id.0 as int,
                    Slot { used: true, affinity, stamp: old(self)@[id.0 as int].stamp },
                )
                &&& count_free(final(self)@) == count_free(old(self)@) - 1
            },
            final(self)@.len() == old(self)@.len(),
            final(self).spec_max_warm() == old(self).spec_max_warm(),
            final(self).spec_clock() == old(self).spec_clock(),
    {
        proof {
            use_type_invariant(&*self);
        }
        let chosen: usize = match affinity {
            Some(a) => {
                let warm = self.find_free_affine(a);
                if warm < self.slots.len() {
                    warm
                } else {
                    self.find_free()
                }
            },
            None => self.find_free(),
        };
        if chosen >= self.slots.len() {
            proof {
                lemma_find_free_le(self.slots@, 0);
                lemma_find_free_none(self.slots@, 0);
                lemma_count_free_bounds(self.slots@);
            }
            None
        } else {
            let ghost old_slots = self.slots@;
            let stamp = self.slots[chosen].stamp;
            self.slots[chosen] = Slot { used: true, affinity, stamp };
            proof {
                lemma_find_free_found(old_slots, 0);
                if let Some(a) = affinity {
                    lemma_find_free_affine_found(old_slots, a, 0);
                }
                lemma_count_free_bounds(old_slots);
                lemma_count_free_update(old_slots, chosen as int, self.slots@[chosen as int]);
            }
            Some(SlotId(chosen as u32))
        }
    }

    /// Mark slot `id` free again, retaining its affinity for warm reuse, and
    /// evict the oldest warm slot's affinity when the warm budget is
    /// exceeded.
    pub fn free(&mut self, id: SlotId)
        requires
            id.0 < old(self)@.len(),
            old(self)@[id.0 as int].used,
        ensures
            final(self)@ == spec_after_free(
                old(self)@,
                id.0 as int,
                old(self).spec_clock(),
                old(self).spec_max_warm(),
            ),
            count_free(final(self)@) == count_free(old(self)@) + 1,
            final(self)@.len() == old(self)@.len(),
            final(self).spec_max_warm() == old(self).spec_max_warm(),
    {
        proof {
            use_type_invariant(&*self);
        }
        let ghost old_slots = self.slots@;
        let i = id.0 as usize;
        let affinity = self.slots[i].affinity;
        let stamp = self.clock;
        self.slots[i] = Slot { used: false, affinity, stamp };
        if self.clock < u64::MAX {
            self.clock = self.clock + 1;
        }
        let ghost mid = self.slots@;
        proof {
            lemma_count_free_update(old_slots, i as int, mid[i as int]);
        }
        let warm = self.count_warm_slots();
        if warm > self.max_unused_warm_slots as usize {
            let evict = self.find_oldest_warm();
            proof {
                lemma_count_warm_bounds(mid);
                if evict == mid.len() {
                    lemma_oldest_warm_none(mid, 0);
                }
                lemma_oldest_warm_found(mid, 0);
                assert(evict < mid.len());
            }
            let keep_stamp = self.slots[evict].stamp;
            self.slots[evict] = Slot { used: false, affinity: None, stamp: keep_stamp };
            proof {
                lemma_count_free_update(mid, evict as int, self.slots@[evict as int]);
            }
        }
    }

    /// Serve a purge probe for `(module, memory_index)`: hand out the lowest
    /// free slot retaining that affinity, cleared of it; when none is free,
    /// strip the affinity from every remaining (used) holder and report
    /// `None`. After a `None` no slot retains the affinity at all.
    pub fn alloc_affine_and_clear_affinity(&mut self, module: u64, memory_index: u32) -> (r: Option<
        SlotId,
    >)
        ensures
            ({
                let a = MemoryInModule { module, memory_index };
                &&& r matches Some(id) ==> {
                    &&& id.0 < old(self)@.len()
                    &&& id.0 == find_free_affine_from(old(self)@, a, 0)
                    &&& !old(self)@[id.0 as int].used
                    &&& old(self)@[id.0 as int].affinity == Some(a)
                    &&& final(self)@ == old(self)@.update(
                        id.0 as int,
                        Slot {
                            used: true,
                            affinity: None,
                            stamp: old(self)@[id.0 as int].stamp,
                        },
                    )
                    &&& count_affine(final(self)@, a) == count_affine(old(self)@, a) - 1
                    &&& count_free(final(self)@) == count_free(old(self)@) - 1
                }
                &&& r is None ==> {
                    &&& count_affine(final(self)@, a) == 0
                    &&& count_free(final(self)@) == count_free(old(self)@)
                    &&& final(self)@.len() == old(self)@.len()
                    &&& forall|i: int|
                        0 <= i < old(self)@.len() ==> final(self)@[i] == (if old(self)@[i].affinity
                            == Some(a) {
                            Slot {
                                used: old(self)@[i].used,
                                affinity: None,
                                stamp: old(self)@[i].stamp,
                            }
                        } else {
                            old(self)@[i]
                        })
                }
            }),
            final(self)@.len() == old(self)@.len(),
            final(self).spec_max_warm() == old(self).spec_max_warm(),
            final(self).spec_clock() == old(self).spec_clock(),
    {
        proof {
            use_type_invariant(&*self);
        }
        let a = MemoryInModule { module, memory_index };
        let warm = self.find_free_affine(a);
        if warm < self.slots.len() {
            let ghost old_slots = self.slots@;
            let stamp = self.slots[warm].stamp;
            self.slots[warm] = Slot { used: true, affinity: None, stamp };
            proof {
                lemma_find_free_affine_found(old_slots, a, 0);
                lemma_count_free_update(old_slots, warm as int, self.slots@[warm as int]);
                lemma_count_affine_update(old_slots, a, warm as int, self.slots@[warm as int]);
            }
            Some(SlotId(warm as u32))
        } else {
            proof {
                lemma_find_free_affine_le(self.slots@, a, 0);
                lemma_find_free_affine_none(self.slots@, a, 0);
            }
            let ghost entry = self.slots@;
            let mut i: usize = 0;
            while i < self.slots.len()
                invariant
                    i <= self.slots@.len(),
                    self.slots@.len() == entry.len(),
                    entry.len() <= u32::MAX,
                    self.max_unused_warm_slots == old(self).max_unused_warm_slots,
                    self.clock == old(self).clock,
                    forall|j: int|
                        0 <= j < entry.len() ==> self.slots@[j] == (if j < i && entry[j].affinity
                            == Some(a) {
                            Slot { used: entry[j].used, affinity: None, stamp: entry[j].stamp }
                        } else {
                            entry[j]
                        }),
                    count_free(self.slots@) == count_free(entry),
                decreases self.slots@.len() - i,
            {
                let ghost before = self.slots@;
                let s = self.slots[i];
                let matches_a = match s.affinity {
                    Some(b) => b == a,
                    None => false,
                };
                if matches_a {
                    self.slots[i] = Slot { used: s.used, affinity: None, stamp: s.stamp };
                    proof {
                        lemma_count_free_update(before, i as int, self.slots@[i as int]);
                    }
                }
                i = i + 1;
            }
            proof {
                lemma_count_affine_none(self.slots@, a);
            }
            None
        }
    }

    /// The lowest index of a free slot with affinity `a`, or the stripe
    /// length when there is none.
    fn find_free_affine(&self, a: MemoryInModule) -> (r: usize)
        ensures
            r == find_free_affine_from(self@, a, 0),
    {
        let mut i: usize = 0;
        while i < self.slots.len()
            invariant
                i <= self.slots@.len(),
                find_free_affine_from(self@, a, 0) == find_free_affine_from(self@, a, i as int),
            decreases self.slots@.len() - i,
        {
            let s = self.slots[i];
            let matches_a = match s.affinity {
                Some(b) => b == a,
                None => false,
            };
            if !s.used && matches_a {
                return i;
            }
            i = i + 1;
        }
        i
    }

    /// The lowest index of a free slot, or the stripe length when there is
    /// none.
    fn find_free(&self) -> (r: usize)
        ensures
            r == find_free_from(self@, 0),
    {
        let mut i: usize = 0;
        while i < self.slots.len()
            invariant
                i <= self.slots@.len(),
                find_free_from(self@, 0) == find_free_from(self@, i as int),
            decreases self.slots@.len() - i,
        {
            if !self.slots[i].used {
                return i;
            }
            i = i + 1;
        }
        i
    }

    /// How many slots are warm: free with a retained affinity.
    fn count_warm_slots(&self) -> (r: usize)
        ensures
            r == count_warm(self@),
    {
        let mut n: usize = 0;
        let mut i: usize = 0;
        while i < self.slots.len()
            invariant
                i <= self.slots.len(),
                n == count_warm(self.slots@.take(i as int)),
                n <= i,
            decreases self.slots.len() - i,
        {
            proof {
                assert(self.slots@.take(i + 1).drop_last() =~= self.slots@.take(i as int));
                assert(self.slots@.take(i + 1).last() == self.slots@[i as int]);
            }
            let s = self.slots[i];
            let warm = match s.affinity {
                Some(_) => !s.used,
                None => false,
            };
            if warm {
                n = n + 1;
            }
            i = i + 1;
        }
        proof {
            assert(self.slots@.take(self.slots@.len() as int) =~= self.slots@);
        }
        n
    }

    /// The warm slot with the smallest stamp, scanning from the high end so
    /// that the lowest index wins ties; the stripe length when none is warm.
    fn find_oldest_warm(&self) -> (r: usize)
        ensures
            r == oldest_warm_from(self@, 0),
            r <= self@.len(),
    {
        let mut i: usize = self.slots.len();
        let mut best: usize = self.slots.len();
        while i > 0
            invariant
                i <= self.slots@.len(),
                best <= self.slots@.len(),
                best == oldest_warm_from(self@, i as int),
            decreases i,
        {
            i = i - 1;
            let s = self.slots[i];
            let warm = match s.affinity {
                Some(_) => !s.used,
                None => false,
            };
            if warm {
                if best < self.slots.len() && self.slots[best].stamp < s.stamp {
                    // keep `best`
                } else {
                    best = i;
                }
            }
        }
        best
    }
}

/// The warm search finds exactly the first free slot retaining `a`.
proof fn lemma_find_free_affine_first(v: Seq<Slot>, a: MemoryInModule, i: int, id: int)
    requires
        0 <= i <= id < v.len(),
        !v[id].used,
        v[id].affinity == Some(a),
        forall|j: int| i <= j < id ==> !(!v[j].used && v[j].affinity == Some(a)),
    ensures
        find_free_affine_from(v, a, i) == id,
    decreases v.len() - i,
{
    if i < id {
        lemma_find_free_affine_first(v, a, i + 1, id);
    }
}

/// Module affinity is honoured: a request for `(module, memory index)`
/// pair `a` reuses the lowest free slot still warm for `a` whenever one
/// exists. In particular, a slot freed with affinity `a` — and not since
/// evicted or undercut by a lower warm match — is returned to the next
/// request for `a`.
pub proof fn lemma_affinity_reuse(v: Seq<Slot>, a: MemoryInModule, id: int)
    requires
        0 <= id < v.len(),
        !v[id].used,
        v[id].affinity == Some(a),
        forall|j: int| 0 <= j < id ==> !(!v[j].used && v[j].affinity == Some(a)),
    ensures
        spec_alloc_choice(v, Some(a)) == id,
{
    lemma_find_free_affine_first(v, a, 0, id);
}

/// Allocation and freeing are inverses for the free count: handing a
/// free slot out and freeing it again leaves the stripe with exactly as
/// many free slots as before, whatever affinity the cycle recorded and
/// whatever eviction the warm budget forced.
pub proof fn lemma_allocate_free_inverse(
    v: Seq<Slot>,
    ch: int,
    affinity: Option<MemoryInModule>,
    stamp: u64,
    max: int,
)
    requires
        0 <= ch < v.len(),
        !v[ch].used,
        0 <= max,
    ensures
        count_free(
            spec_after_free(
                v.update(ch, Slot { used: true, affinity, stamp: v[ch].stamp }),
                ch,
                stamp,
                max,
            ),
        ) == count_free(v),
{
    let taken = v.update(ch, Slot { used: true, affinity, stamp: v[ch].stamp });
    lemma_count_free_update(v, ch, taken[ch]);
    lemma_after_free_pointwise(taken, ch, stamp, max);
    let w = spec_after_free(taken, ch, stamp, max);
    lemma_count_free_used_pointwise(taken, w, ch);
}

/// Freeing slot `ch` of `v1` — every other `used` flag kept — raises the
/// free count by one.
pub proof fn lemma_count_free_used_pointwise(v1: Seq<Slot>, v2: Seq<Slot>, ch: int)
    requires
        v1.len() == v2.len(),
        0 <= ch < v1.len(),
        v1[ch].used,
        !v2[ch].used,
        forall|l: int| 0 <= l < v1.len() ==> ((#[trigger] v2[l]).used == (if l == ch {
            false
        } else {
            v1[l].used
        })),
    ensures
        count_free(v2) == count_free(v1) + 1,
    decreases v1.len(),
{
    if v1.len() > 0 {
        if ch == v1.len() - 1 {
            lemma_count_free_eq_pointwise(v1.drop_last(), v2.drop_last());
        } else {
            lemma_count_free_used_pointwise(v1.drop_last(), v2.drop_last(), ch);
        }
    }
}

/// Sequences agreeing on every `used` flag have equal free counts.
proof fn lemma_count_free_eq_pointwise(v1: Seq<Slot>, v2: Seq<Slot>)
    requires
        v1.len() == v2.len(),
        forall|l: int| 0 <= l < v1.len() ==> (#[trigger] v2[l]).used == v1[l].used,
    ensures
        count_free(v2) == count_free(v1),
    decreases v1.len(),
{
    if v1.len() > 0 {
        lemma_count_free_eq_pointwise(v1.drop_last(), v2.drop_last());
    }
}

/// The warm budget is never negative.
pub proof fn lemma_max_warm_nonneg(a: &StripeAllocator)
    ensures
        a.spec_max_warm() >= 0,
{
}

/// A sequence of all-free slots has as many free slots as entries.
proof fn lemma_count_free_all_free(v: Seq<Slot>)
    requires
        forall|i: int| 0 <= i < v.len() ==> !v[i].used,
    ensures
        count_free(v) == v.len(),
    decreases v.len(),
{
    if v.len() > 0 {
        lemma_count_free_all_free(v.drop_last());
    }
}

/// Updating one slot changes the free count by the difference at that index.
pub proof fn lemma_count_free_update(v: Seq<Slot>, i: int, s: Slot)
    requires
        0 <= i < v.len(),
    ensures
        count_free(v.update(i, s)) == count_free(v) + (if !s.used {
            1int
        } else {
            0int
        }) - (if !v[i].used {
            1int
        } else {
            0int
        }),
    decreases v.len(),
{
    let w = v.update(i, s);
    if v.len() > 0 {
        if i == v.len() - 1 {
            assert(w.drop_last() =~= v.drop_last());
        } else {
            assert(w.drop_last() =~= v.drop_last().update(i, s));
            lemma_count_free_update(v.drop_last(), i, s);
        }
    }
}

/// Updating one slot changes the affine count by the difference at that
/// index.
pub proof fn lemma_count_affine_update(v: Seq<Slot>, a: MemoryInModule, i: int, s: Slot)
    requires
        0 <= i < v.len(),
    ensures
        count_affine(v.update(i, s), a) == count_affine(v, a) + (if s.affinity == Some(a) {
            1int
        } else {
            0int
        }) - (if v[i].affinity == Some(a) {
            1int
        } else {
            0int
        }),
    decreases v.len(),
{
    let w = v.update(i, s);
    if v.len() > 0 {
        if i == v.len() - 1 {
            assert(w.drop_last() =~= v.drop_last());
        } else {
            assert(w.drop_last() =~= v.drop_last().update(i, s));
            lemma_count_affine_update(v.drop_last(), a, i, s);
        }
    }
}

/// A sequence in which no slot retains `a` counts zero for `a`.
pub proof fn lemma_count_affine_none(v: Seq<Slot>, a: MemoryInModule)
    requires
        forall|i: int| 0 <= i < v.len() ==> v[i].affinity != Some(a),
    ensures
        count_affine(v, a) == 0,
    decreases v.len(),
{
    if v.len() > 0 {
        lemma_count_affine_none(v.drop_last(), a);
    }
}

/// The warm count stays within bounds, and is zero exactly when no slot is
/// warm.
proof fn lemma_count_warm_bounds(v: Seq<Slot>)
    ensures
        0 <= count_warm(v) <= v.len(),
        (count_warm(v) == 0) <==> (forall|j: int|
            0 <= j < v.len() ==> !(!v[j].used && v[j].affinity is Some)),
    decreases v.len(),
{
    if v.len() > 0 {
        lemma_count_warm_bounds(v.drop_last());
        assert(forall|j: int| 0 <= j < v.len() - 1 ==> v.drop_last()[j] == v[j]);
    }
}

/// The oldest-warm search stays within `[i, v.len()]`.
pub proof fn lemma_oldest_warm_le(v: Seq<Slot>, i: int)
    requires
        0 <= i <= v.len(),
    ensures
        i <= oldest_warm_from(v, i) <= v.len(),
    decreases v.len() - i,
{
    if i < v.len() {
        lemma_oldest_warm_le(v, i + 1);
    }
}

/// When the oldest-warm search comes back empty, no slot is warm.
proof fn lemma_oldest_warm_none(v: Seq<Slot>, i: int)
    requires
        0 <= i <= v.len(),
        oldest_warm_from(v, i) == v.len(),
    ensures
        forall|j: int| i <= j < v.len() ==> !(!v[j].used && v[j].affinity is Some),
    decreases v.len() - i,
{
    if i < v.len() {
        if oldest_warm_from(v, i + 1) == v.len() {
            lemma_oldest_warm_none(v, i + 1);
        }
    }
}

/// The warm search never lands past the end.
proof fn lemma_find_free_affine_le(v: Seq<Slot>, a: MemoryInModule, i: int)
    requires
        0 <= i <= v.len(),
    ensures
        find_free_affine_from(v, a, i) <= v.len(),
    decreases v.len() - i,
{
    if i < v.len() && !(!v[i].used && v[i].affinity == Some(a)) {
        lemma_find_free_affine_le(v, a, i + 1);
    }
}

/// The free count stays within bounds, and is zero exactly when every slot
/// is in use.
pub proof fn lemma_count_free_bounds(v: Seq<Slot>)
    ensures
        0 <= count_free(v) <= v.len(),
        (count_free(v) == 0) <==> (forall|j: int| 0 <= j < v.len() ==> v[j].used),
    decreases v.len(),
{
    if v.len() > 0 {
        lemma_count_free_bounds(v.drop_last());
        assert(forall|j: int| 0 <= j < v.len() - 1 ==> v.drop_last()[j] == v[j]);
    }
}

/// The free search never lands past the end.
proof fn lemma_find_free_le(v: Seq<Slot>, i: int)
    requires
        0 <= i <= v.len(),
    ensures
        find_free_from(v, i) <= v.len(),
    decreases v.len() - i,
{
    if i < v.len() && v[i].used {
        lemma_find_free_le(v, i + 1);
    }
}

/// When the free search comes back empty there is no free slot at all.
proof fn lemma_find_free_none(v: Seq<Slot>, i: int)
    requires
        0 <= i <= v.len(),
        find_free_from(v, i) == v.len(),
    ensures
        forall|j: int| i <= j < v.len() ==> v[j].used,
    decreases v.len() - i,
{
    if i < v.len() {
        lemma_find_free_none(v, i + 1);
    }
}

/// A successful free search lands on a free slot within bounds.
proof fn lemma_find_free_found(v: Seq<Slot>, i: int)
    requires
        0 <= i <= v.len(),
    ensures
        find_free_from(v, i) < v.len() ==> {
            &&& i <= find_free_from(v, i)
            &&& !v[find_free_from(v, i)].used
        },
    decreases v.len() - i,
{
    if i < v.len() && v[i].used {
        lemma_find_free_found(v, i + 1);
    }
}

/// A successful warm search lands on a free slot retaining `a`.
proof fn lemma_find_free_affine_found(v: Seq<Slot>, a: MemoryInModule, i: int)
    requires
        0 <= i <= v.len(),
    ensures
        find_free_affine_from(v, a, i) < v.len() ==> {
            &&& i <= find_free_affine_from(v, a, i)
            &&& !v[find_free_affine_from(v, a, i)].used
            &&& v[find_free_affine_from(v, a, i)].affinity == Some(a)
        },
    decreases v.len() - i,
{
    if i < v.len() && !(!v[i].used && v[i].affinity == Some(a)) {
        lemma_find_free_affine_found(v, a, i + 1);
    }
}

/// When the warm search comes back empty, no free slot retains `a`.
proof fn lemma_find_free_affine_none(v: Seq<Slot>, a: MemoryInModule, i: int)
    requires
        0 <= i <= v.len(),
        find_free_affine_from(v, a, i) == v.len(),
    ensures
        forall|j: int| i <= j < v.len() ==> !(!v[j].used && v[j].affinity == Some(a)),
    decreases v.len() - i,
{
    if i < v.len() {
        lemma_find_free_affine_none(v, a, i + 1);
    }
}

/// The affine count stays within bounds, and is zero exactly when no slot
/// retains `a`.
pub proof fn lemma_count_affine_bounds(v: Seq<Slot>, a: MemoryInModule)
    ensures
        0 <= count_affine(v, a) <= v.len(),
        (count_affine(v, a) == 0) <==> (forall|j: int| 0 <= j < v.len() ==> v[j].affinity != Some(
            a,
        )),
    decreases v.len(),
{
    if v.len() > 0 {
        lemma_count_affine_bounds(v.drop_last(), a);
        assert(forall|j: int| 0 <= j < v.len() - 1 ==> v.drop_last()[j] == v[j]);
    }
}

/// A step that only keeps or clears affinities never raises any affine
/// count.
pub proof fn lemma_count_affine_monotone(v1: Seq<Slot>, v2: Seq<Slot>, a: MemoryInModule)
    requires
        v1.len() == v2.len(),
        forall|j: int|
            0 <= j < v2.len() ==> (#[trigger] v2[j].affinity) == v1[j].affinity || v2[j].affinity
                is None,
    ensures
        count_affine(v2, a) <= count_affine(v1, a),
    decreases v1.len(),
{
    if v1.len() > 0 {
        lemma_count_affine_monotone(v1.drop_last(), v2.drop_last(), a);
        assert(forall|j: int| 0 <= j < v1.len() - 1 ==> v1.drop_last()[j] == v1[j]);
        assert(forall|j: int| 0 <= j < v2.len() - 1 ==> v2.drop_last()[j] == v2[j]);
        assert(v2.last().affinity == v1.last().affinity || v2.last().affinity is None);
    }
}

/// Freeing a slot changes `used` only there — to free — and every
/// affinity is either kept or cleared; a cleared slot other than the
/// freed one was free already (only warm slots are evicted), and no
/// stamp but the freed slot's moves.
pub proof fn lemma_after_free_pointwise(v: Seq<Slot>, id: int, stamp: u64, max: int)
    requires
        0 <= id < v.len(),
        0 <= max,
    ensures
        ({
            let w = spec_after_free(v, id, stamp, max);
            &&& w.len() == v.len()
            &&& forall|l: int|
                0 <= l < v.len() ==> ((#[trigger] w[l]).affinity == v[l].affinity
                    || w[l].affinity is None)
            &&& forall|l: int|
                0 <= l < v.len() ==> ((#[trigger] w[l]).used == (if l == id {
                    false
                } else {
                    v[l].used
                }))
            &&& forall|l: int|
                0 <= l < v.len() && l != id ==> (#[trigger] w[l]).stamp == v[l].stamp
            &&& forall|l: int|
                0 <= l < v.len() && l != id && (#[trigger] w[l]).affinity != v[l].affinity
                    ==> !v[l].used
            &&& !w[id].used
        }),
{
    let freed = Slot { used: false, affinity: v[id].affinity, stamp };
    let mid = v.update(id, freed);
    let w = spec_after_free(v, id, stamp, max);
    if count_warm(mid) > max {
        lemma_count_warm_bounds(mid);
        let evict = oldest_warm_from(mid, 0);
        lemma_oldest_warm_le(mid, 0);
        if evict == mid.len() {
            lemma_oldest_warm_none(mid, 0);
        }
        lemma_oldest_warm_found(mid, 0);
        assert(0 <= evict < mid.len());
        assert(!mid[evict].used);
        assert forall|l: int|
            0 <= l < v.len() implies ((#[trigger] w[l]).affinity == v[l].affinity
                || w[l].affinity is None) by {
            if l != evict && l != id {
                assert(w[l] == v[l]);
            }
        }
        assert forall|l: int|
            0 <= l < v.len() implies ((#[trigger] w[l]).used == (if l == id {
                false
            } else {
                v[l].used
            })) by {
            if l == evict {
                assert(w[l].used == mid[l].used);
            } else if l != id {
                assert(w[l] == mid[l] && mid[l] == v[l]);
            }
        }
    } else {
        assert(w == mid);
        assert forall|l: int|
            0 <= l < v.len() implies ((#[trigger] w[l]).affinity == v[l].affinity
                || w[l].affinity is None) && ((#[trigger] w[l]).used == (if l == id {
                false
            } else {
                v[l].used
            })) by {
            if l != id {
                assert(w[l] == v[l]);
            }
        }
    }
}

/// A successful oldest-warm search lands on a warm slot.
proof fn lemma_oldest_warm_found(v: Seq<Slot>, i: int)
    requires
        0 <= i <= v.len(),
    ensures
        oldest_warm_from(v, i) < v.len() ==> {
            &&& i <= oldest_warm_from(v, i)
            &&& !v[oldest_warm_from(v, i)].used
            &&& v[oldest_warm_from(v, i)].affinity is Some
        },
    decreases v.len() - i,
{
    if i < v.len() {
        lemma_oldest_warm_found(v, i + 1);
    }
}

} // verus!
