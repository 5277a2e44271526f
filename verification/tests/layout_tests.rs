//! Tests of the slab-layout calculator.

use mpk_pool::layout::{calculate, SlabConstraints, SlabLayout, PAGE_SIZE};

const WASM_PAGE_SIZE: usize = 65536;

fn assert_slab_layout_invariants(c: SlabConstraints, s: SlabLayout) {
    // Check that all the sizes add up.
    assert_eq!(
        s.total_slab_bytes,
        s.pre_slab_guard_bytes + s.slot_bytes * c.num_memory_slots + s.post_slab_guard_bytes,
        "the slab size does not add up: {c:?} => {s:?}"
    );

    // Check that the memory slot size is page-aligned.
    assert!(
        s.slot_bytes % PAGE_SIZE == 0,
        "slot size is not page-aligned: {c:?} => {s:?}",
    );

    // Check that we use no more or less stripes than needed.
    assert!(s.num_stripes >= 1, "not enough stripes: {c:?} => {s:?}");
    if c.num_pkeys_available == 0 {
        assert_eq!(
            s.num_stripes, 1,
            "expected at least one stripe: {c:?} => {s:?}"
        );
    } else {
        assert!(
            s.num_stripes <= c.num_pkeys_available,
            "layout has more stripes than available pkeys: {c:?} => {s:?}"
        );
    }

    // Check that we use the minimum number of stripes/protection keys.
    if c.num_pkeys_available > 1 && c.max_memory_bytes > 0 {
        assert!(
            s.num_stripes <= (c.guard_bytes / c.max_memory_bytes) + 2,
            "calculated more stripes than needed: {c:?} => {s:?}"
        );
    }

    // Check that the memory-striping will not allow OOB access.
    if s.num_stripes > 1 {
        assert!(
            s.slot_bytes * (s.num_stripes - 1) >= c.guard_bytes,
            "layout may allow OOB access: {c:?} => {s:?}"
        );
    }
}

#[test]
fn check_known_layout_calculations() {
    for num_pkeys_available in 0..16 {
        for num_memory_slots in [0, 1, 10, 64] {
            for max_memory_bytes in [0, 1 * WASM_PAGE_SIZE, 10 * WASM_PAGE_SIZE] {
                for guard_bytes in [0, 2 << 30] {
                    for guard_before_slots in [true, false] {
                        let constraints = SlabConstraints {
                            max_memory_bytes,
                            num_memory_slots,
                            num_pkeys_available,
                            guard_bytes,
                            guard_before_slots,
                        };
                        let layout = calculate(&constraints);
                        assert_slab_layout_invariants(constraints, layout.unwrap());
                    }
                }
            }
        }
    }
}

#[test]
fn striping_reduces_the_effective_guard() {
    // Four keys, a 4 GiB memory budget and a 2 GiB guard: two stripes
    // suffice, the next slot fully covers the guard, and the reservation
    // is about 64 GiB rather than 96 GiB.
    let four_gib: usize = 4 << 30;
    let two_gib: usize = 2 << 30;
    let c = SlabConstraints {
        max_memory_bytes: four_gib,
        num_memory_slots: 16,
        num_pkeys_available: 4,
        guard_bytes: two_gib,
        guard_before_slots: false,
    };
    let l = calculate(&c).unwrap();
    assert_eq!(l.num_stripes, 2);
    assert_eq!(l.slot_bytes, four_gib);
    assert_eq!(l.pre_slab_guard_bytes, 0);
    assert_eq!(l.post_slab_guard_bytes, two_gib);
    assert_eq!(l.total_slab_bytes, 16 * four_gib + two_gib);
}

#[test]
fn sub_slot_guard_rounding() {
    // A guard smaller than the memory budget still takes one extra
    // stripe; the in-slot guard disappears entirely.
    let c = SlabConstraints {
        max_memory_bytes: 10 * WASM_PAGE_SIZE,
        num_memory_slots: 8,
        num_pkeys_available: 3,
        guard_bytes: 2 * WASM_PAGE_SIZE,
        guard_before_slots: false,
    };
    let l = calculate(&c).unwrap();
    assert_eq!(l.num_stripes, 2);
    assert_eq!(l.slot_bytes, 10 * WASM_PAGE_SIZE);
    assert_eq!(l.post_slab_guard_bytes, 2 * WASM_PAGE_SIZE);
}

#[test]
fn overflow_is_rejected() {
    let c = SlabConstraints {
        max_memory_bytes: usize::MAX,
        num_memory_slots: 1,
        num_pkeys_available: 0,
        guard_bytes: usize::MAX,
        guard_before_slots: false,
    };
    assert!(calculate(&c).is_err());
}

#[test]
fn single_stripe_layout_is_packed() {
    // No keys, no guard: slots lie back to back.
    let c = SlabConstraints {
        max_memory_bytes: WASM_PAGE_SIZE,
        num_memory_slots: 5,
        num_pkeys_available: 0,
        guard_bytes: 0,
        guard_before_slots: false,
    };
    let l = calculate(&c).unwrap();
    assert_eq!(l.num_stripes, 1);
    assert_eq!(l.slot_bytes, WASM_PAGE_SIZE);
    assert_eq!(l.total_slab_bytes, 5 * WASM_PAGE_SIZE);
    assert_eq!(l.pre_slab_guard_bytes, 0);
    assert_eq!(l.post_slab_guard_bytes, 0);
}

#[test]
fn guard_before_slots_prepends_the_full_guard() {
    let c = SlabConstraints {
        max_memory_bytes: WASM_PAGE_SIZE,
        num_memory_slots: 2,
        num_pkeys_available: 0,
        guard_bytes: 3 * PAGE_SIZE,
        guard_before_slots: true,
    };
    let l = calculate(&c).unwrap();
    assert_eq!(l.pre_slab_guard_bytes, 3 * PAGE_SIZE);
    assert_eq!(l.num_stripes, 1);
    // The whole guard stays in-slot, so nothing trails.
    assert_eq!(l.slot_bytes, WASM_PAGE_SIZE + 3 * PAGE_SIZE);
    assert_eq!(l.post_slab_guard_bytes, 0);
}
