//! The slab-layout calculator.
//!
//! Given a set of constraints — per-slot memory budget, pool capacity, the
//! number of protection keys available, and the requested guard size — the
//! calculator decides how large each slot is, how many stripes the slab is
//! split into, and how much guard region remains before and after the slots.
//!
//! When at least two protection keys are available and both the memory and
//! guard budgets are non-zero, neighbouring slots of a different stripe serve
//! as (part of) a slot's guard region, which shrinks the in-slot guard and the
//! trailing guard accordingly.

use vstd::prelude::*;

verus! {

/// Size in bytes of one OS page (x86-64 Linux).
pub const PAGE_SIZE: usize = 4096;

/// Input to the layout calculator.
#[derive(Clone, Copy, Debug)]
pub struct SlabConstraints {
    /// The per-slot accessible region budget, in bytes.
    pub max_memory_bytes: usize,
    /// Capacity of the pool, in slots.
    pub num_memory_slots: usize,
    /// Number of non-kernel protection keys available (0 to 15).
    pub num_pkeys_available: usize,
    /// Requested trailing-guard size per slot, in bytes.
    pub guard_bytes: usize,
    /// Whether a guard region is prepended before the first slot.
    pub guard_before_slots: bool,
}

/// Output of the layout calculator.
#[derive(Clone, Copy, Debug)]
pub struct SlabLayout {
    /// The total number of bytes to reserve for the slab.
    pub total_slab_bytes: usize,
    /// Bytes of guard region before the first slot.
    pub pre_slab_guard_bytes: usize,
    /// Bytes of guard region after the last slot.
    pub post_slab_guard_bytes: usize,
    /// The page-aligned size of each slot, comprising the accessible region
    /// and whatever guard could not be overlapped onto other stripes.
    pub slot_bytes: usize,
    /// The number of stripes in the slab (at least 1).
    pub num_stripes: usize,
}

/// The slab arithmetic would overflow the address space.
#[derive(Clone, Copy, Debug, PartialEq, Eq, Structural)]
pub struct LayoutOverflow;

/// Guard bytes before the first slot: the full guard if requested, else none.
pub open spec fn spec_pre_guard(c: SlabConstraints) -> int {
    if c.guard_before_slots {
        c.guard_bytes as int
    } else {
        0
    }
}

/// Whether the constraints allow striping at all: both budgets non-zero and
/// at least two keys to alternate between.
pub open spec fn spec_can_stripe(c: SlabConstraints) -> bool {
    c.guard_bytes > 0 && c.max_memory_bytes > 0 && c.num_pkeys_available >= 2
}

/// The number of stripes wanted before capping by the available keys: enough
/// following slots to cover the guard region, plus one for the slot itself.
pub open spec fn spec_needed_stripes(c: SlabConstraints) -> int {
    c.guard_bytes as int / c.max_memory_bytes as int + (if c.guard_bytes as int
        % c.max_memory_bytes as int != 0 {
        1int
    } else {
        0int
    }) + 1
}

/// The number of stripes the layout uses.
pub open spec fn spec_num_stripes(c: SlabConstraints) -> int {
    if spec_can_stripe(c) {
        vstd::math::min(c.num_pkeys_available as int, spec_needed_stripes(c))
    } else {
        1
    }
}

/// Guard bytes that each slot must still carry itself: the requested guard
/// less what the following slots of other stripes cover.
pub open spec fn spec_needed_guard(c: SlabConstraints) -> int {
    if spec_can_stripe(c) {
        vstd::math::max(0, c.guard_bytes - c.max_memory_bytes * (spec_num_stripes(c) - 1))
    } else {
        c.guard_bytes as int
    }
}

/// The slot size before page alignment.
pub open spec fn spec_slot_unrounded(c: SlabConstraints) -> int {
    c.max_memory_bytes + spec_needed_guard(c)
}

/// The page-aligned slot size.
pub open spec fn spec_slot_bytes(c: SlabConstraints) -> int {
    ((spec_slot_unrounded(c) + PAGE_SIZE - 1) / (PAGE_SIZE as int)) * (PAGE_SIZE as int)
}

/// Trailing guard: the request, shortened by what the last slot already
/// carries in-slot.
pub open spec fn spec_post_guard(c: SlabConstraints) -> int {
    c.guard_bytes - spec_needed_guard(c)
}

/// The whole slab: leading guard, the slots back to back, trailing guard.
pub open spec fn spec_total_slab(c: SlabConstraints) -> int {
    spec_pre_guard(c) + spec_slot_bytes(c) * c.num_memory_slots + spec_post_guard(c)
}

/// Whether the slab fits a platform word: the rounding input and the total
/// must both be representable.
pub open spec fn spec_layout_fits(c: SlabConstraints) -> bool {
    &&& spec_slot_unrounded(c) + PAGE_SIZE - 1 <= usize::MAX
    &&& spec_total_slab(c) <= usize::MAX
}

/// Compute the slab layout for `c`, or report that the arithmetic would
/// overflow the address space.
///
/// On success the layout is exactly the one the spec functions above
/// describe, and it satisfies the slab invariants: the sizes add up, the
/// slot size is page-aligned, the stripe count is at least one, never
/// exceeds the available keys, is minimal for the guard budget, and — when
/// striping — the following stripes' slots fully cover the requested guard.
pub fn calculate(constraints: &SlabConstraints) -> (r: Result<SlabLayout, LayoutOverflow>)
    ensures
        r is Ok <==> spec_layout_fits(*constraints),
        r matches Ok(l) ==> {
            &&& l.pre_slab_guard_bytes == spec_pre_guard(*constraints)
            &&& l.num_stripes == spec_num_stripes(*constraints)
            &&& l.slot_bytes == spec_slot_bytes(*constraints)
            &&& l.post_slab_guard_bytes == spec_post_guard(*constraints)
            &&& l.total_slab_bytes == spec_total_slab(*constraints)
        },
        r matches Ok(l) ==> {
            &&& l.total_slab_bytes == l.pre_slab_guard_bytes + l.slot_bytes
                * constraints.num_memory_slots + l.post_slab_guard_bytes
            &&& l.slot_bytes % PAGE_SIZE == 0
            &&& l.num_stripes >= 1
            &&& l.num_stripes <= vstd::math::max(1, constraints.num_pkeys_available as int)
            &&& constraints.num_pkeys_available == 0 ==> l.num_stripes == 1
            &&& (constraints.num_pkeys_available > 1 && constraints.max_memory_bytes > 0)
                ==> l.num_stripes <= constraints.guard_bytes as int
                / constraints.max_memory_bytes as int + 2
            &&& l.num_stripes > 1 ==> l.slot_bytes * (l.num_stripes - 1)
                >= constraints.guard_bytes
        },
{
    let c = *constraints;
    let pre_slab_guard_bytes: usize = if c.guard_before_slots {
        c.guard_bytes
    } else {
        0
    };

    let can_stripe: bool = c.guard_bytes > 0 && c.max_memory_bytes > 0 && c.num_pkeys_available
        >= 2;
    let (num_stripes, needed_guard_bytes): (usize, usize) = if !can_stripe {
        // Either region is empty, or there are not enough keys to alternate:
        // lay the slots back to back in a single stripe and keep the guard.
        (1, c.guard_bytes)
    } else {
        // The following `needed - 1` slots of other stripes overlap this
        // slot's guard region; keep only what they do not cover. The count
        // saturates, which cannot change the minimum below: the key count
        // always fits a platform word.
        let base: usize = c.guard_bytes / c.max_memory_bytes;
        let extra: usize = if c.guard_bytes % c.max_memory_bytes != 0 {
            1
        } else {
            0
        };
        let needed_num_stripes: usize = match base.checked_add(extra + 1) {
            Some(n) => n,
            None => usize::MAX,
        };
        assert(needed_num_stripes == vstd::math::min(usize::MAX as int, spec_needed_stripes(c)));
        let num_stripes: usize = if c.num_pkeys_available < needed_num_stripes {
            c.num_pkeys_available
        } else {
            needed_num_stripes
        };
        assert(num_stripes == spec_num_stripes(c));
        let overlap: usize = match c.max_memory_bytes.checked_mul(num_stripes - 1) {
            Some(o) => o,
            None => usize::MAX,
        };
        let needed_guard_bytes: usize = match c.guard_bytes.checked_sub(overlap) {
            Some(g) => g,
            None => 0,
        };
        proof {
            lemma_needed_stripes_bounds(c);
            assert(needed_guard_bytes == spec_needed_guard(c)) by (nonlinear_arith)
                requires
                    spec_can_stripe(c),
                    num_stripes == spec_num_stripes(c),
                    num_stripes >= 1,
                    overlap == if c.max_memory_bytes * (num_stripes - 1) <= usize::MAX {
                        c.max_memory_bytes * (num_stripes - 1)
                    } else {
                        usize::MAX as int
                    },
                    needed_guard_bytes == vstd::math::max(0, c.guard_bytes - overlap),
                    spec_needed_guard(c) == vstd::math::max(
                        0,
                        c.guard_bytes - c.max_memory_bytes * (spec_num_stripes(c) - 1),
                    ),
            ;
        }
        (num_stripes, needed_guard_bytes)
    };
    assert(num_stripes == spec_num_stripes(c));
    assert(needed_guard_bytes == spec_needed_guard(c));

    // Page-align the slot size, failing if the arithmetic leaves the
    // platform word.
    let unrounded: usize = match c.max_memory_bytes.checked_add(needed_guard_bytes) {
        Some(u) => u,
        None => {
            return Err(LayoutOverflow);
        },
    };
    let padded: usize = match unrounded.checked_add(PAGE_SIZE - 1) {
        Some(p) => p,
        None => {
            return Err(LayoutOverflow);
        },
    };
    let slot_bytes: usize = (padded / PAGE_SIZE) * PAGE_SIZE;
    proof {
        assert(slot_bytes == spec_slot_bytes(c));
        vstd::arithmetic::div_mod::lemma_mod_multiples_basic(
            padded as int / PAGE_SIZE as int,
            PAGE_SIZE as int,
        );
        assert(slot_bytes % PAGE_SIZE == 0);
        lemma_round_up_bounds(unrounded as int, PAGE_SIZE as int);
    }

    // The last slot already carries `needed_guard_bytes` of guard in-slot, so
    // the trailing external guard shrinks by that much.
    let post_slab_guard_bytes: usize = c.guard_bytes - needed_guard_bytes;

    let with_slots: usize = match slot_bytes.checked_mul(c.num_memory_slots) {
        Some(t) => t,
        None => {
            return Err(LayoutOverflow);
        },
    };
    let with_pre: usize = match with_slots.checked_add(pre_slab_guard_bytes) {
        Some(t) => t,
        None => {
            return Err(LayoutOverflow);
        },
    };
    let total_slab_bytes: usize = match with_pre.checked_add(post_slab_guard_bytes) {
        Some(t) => t,
        None => {
            return Err(LayoutOverflow);
        },
    };

    proof {
        if num_stripes > 1 {
            lemma_striped_guard_covered(c, slot_bytes as int);
        }
    }

    Ok(
        SlabLayout {
            total_slab_bytes,
            pre_slab_guard_bytes,
            post_slab_guard_bytes,
            slot_bytes,
            num_stripes,
        },
    )
}

/// In the striping branch the wanted stripe count is at least 2, and it stays
/// within `guard / max + 2`.
proof fn lemma_needed_stripes_bounds(c: SlabConstraints)
    requires
        spec_can_stripe(c),
    ensures
        spec_needed_stripes(c) >= 2,
        spec_num_stripes(c) >= 2 || spec_num_stripes(c) == c.num_pkeys_available,
        spec_num_stripes(c) <= c.guard_bytes as int / c.max_memory_bytes as int + 2,
        spec_num_stripes(c) >= 1,
{
    let g = c.guard_bytes as int;
    let m = c.max_memory_bytes as int;
    vstd::arithmetic::div_mod::lemma_div_pos_is_pos(g, m);
    if g >= m {
        vstd::arithmetic::div_mod::lemma_div_non_zero(g, m);
    } else {
        vstd::arithmetic::div_mod::lemma_small_mod(c.guard_bytes as nat, c.max_memory_bytes as nat);
    }
}

/// Rounding up to a page multiple never shrinks the value and never adds a
/// full page.
proof fn lemma_round_up_bounds(x: int, p: int)
    requires
        x >= 0,
        p > 0,
    ensures
        ((x + p - 1) / p) * p >= x,
        ((x + p - 1) / p) * p <= x + p - 1,
{
    let q = (x + p - 1) / p;
    let r = (x + p - 1) % p;
    vstd::arithmetic::div_mod::lemma_fundamental_div_mod(x + p - 1, p);
    vstd::arithmetic::div_mod::lemma_mod_bound(x + p - 1, p);
    assert(x + p - 1 == p * q + r);
    assert(p * q == q * p) by (nonlinear_arith);
}

/// With more than one stripe, the slots of the other stripes — each at least
/// `slot_bytes` long — cover the whole requested guard region.
proof fn lemma_striped_guard_covered(c: SlabConstraints, slot: int)
    requires
        spec_can_stripe(c),
        spec_num_stripes(c) > 1,
        slot >= spec_slot_unrounded(c),
    ensures
        slot * (spec_num_stripes(c) - 1) >= c.guard_bytes,
{
    let s = spec_num_stripes(c);
    let m = c.max_memory_bytes as int;
    let g = c.guard_bytes as int;
    let need = spec_needed_guard(c);
    assert(need >= g - m * (s - 1));
    assert(slot >= m + need);
    assert((m + need) * (s - 1) >= m * (s - 1) + need) by (nonlinear_arith)
        requires
            s - 1 >= 1,
            need >= 0,
            m >= 0,
    ;
    assert(slot * (s - 1) >= (m + need) * (s - 1)) by (nonlinear_arith)
        requires
            slot >= m + need,
            s - 1 >= 1,
    ;
}



} // verus!
