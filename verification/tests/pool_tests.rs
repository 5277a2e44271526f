//! Tests of the memory pool: construction, striping, allocation,
//! deallocation and purging, against a fake host.

use mpk_pool::mpk::{keys, MpkRuntime, PkeyRef};
use mpk_pool::pool::{
    AllocationRequest, AutoEnabled, InstanceLimits, MemoryAllocationIndex, MemoryPlan, MemoryPool,
    MemorySlot, MemoryStyle, Module, PoolError, PoolingInstanceAllocatorConfig, SlabHost,
    Tunables, ValidationError,
};

/// A fake machine: a configurable number of protection keys, a PKRU
/// cell, and an address-space reservation that always lands at the same
/// base.
struct FakeHost {
    supported: bool,
    num_keys: u32,
    allocated: u32,
    pkru: u32,
    reserve_fails: bool,
}

impl FakeHost {
    fn with_keys(num_keys: u32) -> FakeHost {
        FakeHost { supported: num_keys > 0, num_keys, allocated: 0, pkru: 0, reserve_fails: false }
    }
}

impl MpkRuntime for FakeHost {
    fn cpu_supports_pkru(&self) -> bool {
        self.supported
    }
    fn pkey_alloc(&mut self) -> Option<u32> {
        if self.allocated < self.num_keys {
            self.allocated += 1;
            Some(self.allocated)
        } else {
            None
        }
    }
    fn pkey_mprotect(&mut self, _addr: usize, _len: usize, _prot: u32, _key: u32) -> Result<(), i32> {
        Ok(())
    }
    fn pkru_read(&self) -> u32 {
        self.pkru
    }
    fn pkru_write(&mut self, value: u32) {
        self.pkru = value;
    }
}

impl SlabHost for FakeHost {
    fn reserve(&mut self, _accessible: usize, _total: usize) -> Option<usize> {
        if self.reserve_fails {
            None
        } else {
            Some(0x1000_0000)
        }
    }
}

/// An image slot whose operations always succeed; `generation` lets a
/// test tell a stored cell from a freshly created one.
#[derive(Debug)]
struct FakeSlot {
    base: usize,
    generation: u32,
}

impl MemorySlot for FakeSlot {
    fn create(base_addr: usize, _max_accessible: usize) -> Self {
        FakeSlot { base: base_addr, generation: 0 }
    }
    fn instantiate(&mut self, _initial_size: usize, _module: Option<u64>, _memory_index: u32) -> bool {
        true
    }
    fn clear_and_remain_ready(&mut self, _keep_resident: usize) -> bool {
        true
    }
    fn remove_image(&mut self) -> bool {
        true
    }
    fn is_dirty(&self) -> bool {
        false
    }
    fn no_clear_on_drop(&mut self) {}
}

/// An image slot that refuses every image.
#[derive(Debug)]
struct RefusingSlot;

impl MemorySlot for RefusingSlot {
    fn create(_base_addr: usize, _max_accessible: usize) -> Self {
        RefusingSlot
    }
    fn instantiate(&mut self, _initial_size: usize, _module: Option<u64>, _memory_index: u32) -> bool {
        false
    }
    fn clear_and_remain_ready(&mut self, _keep_resident: usize) -> bool {
        true
    }
    fn remove_image(&mut self) -> bool {
        true
    }
    fn is_dirty(&self) -> bool {
        false
    }
    fn no_clear_on_drop(&mut self) {}
}

fn small_config(total: u32, pages: u64, mpk: AutoEnabled) -> PoolingInstanceAllocatorConfig {
    PoolingInstanceAllocatorConfig {
        limits: InstanceLimits {
            total_memories: total,
            max_memories_per_module: 3,
            memory_pages: pages,
        },
        max_unused_warm_slots: 100,
        linear_memory_keep_resident: 0,
        memory_protection_keys: mpk,
    }
}

fn small_tunables() -> Tunables {
    Tunables {
        static_memory_bound: 1,
        static_memory_offset_guard_size: 0,
        guard_before_linear_memory: false,
    }
}

fn plan() -> MemoryPlan {
    MemoryPlan { style: MemoryStyle::Dynamic, minimum: 1 }
}

fn request(pkey: Option<PkeyRef>, module: u64) -> AllocationRequest {
    AllocationRequest { pkey, module_id: Some(module) }
}

fn new_unstriped(total: u32) -> MemoryPool<FakeSlot> {
    let mut host = FakeHost::with_keys(0);
    let no_keys = Vec::new();
    MemoryPool::new(
        &small_config(total, 1, AutoEnabled::Disable),
        &small_tunables(),
        false,
        &no_keys,
        &mut host,
    )
    .unwrap()
}

#[test]
fn test_memory_pool() {
    let pool = new_unstriped(5);

    assert_eq!(pool.memory_and_guard_size, 65536);
    assert_eq!(pool.max_total_memories, 5);
    assert_eq!(pool.max_accessible, 65536);

    let base = pool.mapping_base;

    for i in 0..5 {
        let index = MemoryAllocationIndex(i);
        let ptr = pool.get_base(index);
        assert_eq!(ptr - base, i as usize * pool.memory_and_guard_size);
    }
}

#[test]
fn test_pooling_allocator_with_reservation_size_exceeded() {
    // A page limit above the static bound grows the per-memory
    // reservation.
    let mut host = FakeHost::with_keys(0);
    let no_keys = Vec::new();
    let pool: MemoryPool<FakeSlot> = MemoryPool::new(
        &small_config(1, 2, AutoEnabled::Disable),
        &small_tunables(),
        false,
        &no_keys,
        &mut host,
    )
    .unwrap();
    assert_eq!(pool.memory_size, 2 * 65536);
}

#[test]
fn test_pooling_allocator_striping() {
    // Force the use of MPK on a (fake) machine with a full complement of
    // keys.
    let mut host = FakeHost::with_keys(15);
    let pkeys: Vec<PkeyRef> = keys(&mut host).into_iter().map(PkeyRef::from).collect();
    let config = PoolingInstanceAllocatorConfig {
        memory_protection_keys: AutoEnabled::Enable,
        ..PoolingInstanceAllocatorConfig::default()
    };
    let pool: MemoryPool<FakeSlot> =
        MemoryPool::new(&config, &Tunables::default(), true, &pkeys, &mut host).unwrap();
    assert!(pool.stripes.len() >= 2);

    let max_memory_slots = config.limits.total_memories;
    let available_memory_slots: usize = pool
        .stripes
        .iter()
        .map(|s| s.allocator.num_empty_slots())
        .sum();
    assert_eq!(max_memory_slots as usize, available_memory_slots);
}

#[test]
fn single_stripe_fallback() {
    // Without keys the pool degrades to one stripe; five slots serve
    // five memories and the sixth request is refused.
    let mut pool = new_unstriped(5);
    assert_eq!(pool.stripes.len(), 1);

    let mut held = Vec::new();
    for i in 0..5 {
        let (idx, mem) = pool.allocate(&request(None, 7), &plan(), 0).unwrap();
        assert_eq!(idx.0, i);
        held.push((idx, mem));
    }
    match pool.allocate(&request(None, 7), &plan(), 0) {
        Err(PoolError::PoolExhausted) => {}
        other => panic!("expected exhaustion, got {:?}", other.map(|(i, _)| i)),
    }
    for (idx, mem) in held {
        pool.deallocate(idx, mem);
    }
    assert!(pool.is_empty());
}

fn new_two_striped() -> (MemoryPool<FakeSlot>, Vec<PkeyRef>) {
    // Two stripes over four slots: a 4 GiB budget with a 2 GiB guard
    // needs exactly one covering neighbour.
    let mut host = FakeHost::with_keys(2);
    let pkeys: Vec<PkeyRef> = keys(&mut host).into_iter().map(PkeyRef::from).collect();
    let config = PoolingInstanceAllocatorConfig {
        limits: InstanceLimits {
            total_memories: 4,
            max_memories_per_module: 1,
            memory_pages: 160,
        },
        ..PoolingInstanceAllocatorConfig::default()
    };
    let pool = MemoryPool::new(&config, &Tunables::default(), true, &pkeys, &mut host).unwrap();
    (pool, pkeys)
}

#[test]
fn affinity_reuse() {
    let (mut pool, pkeys) = new_two_striped();
    assert_eq!(pool.stripes.len(), 2);
    let stripe0 = Some(pkeys[0]);

    // First allocation for (A, 0) takes slot 0 of stripe 0, which is
    // pool index 0.
    let (idx, mem) = pool.allocate(&request(stripe0, 100), &plan(), 0).unwrap();
    assert_eq!(idx.0, 0);
    pool.deallocate(idx, mem);

    // The same module gets its warm slot back.
    let (idx2, mem2) = pool.allocate(&request(stripe0, 100), &plan(), 0).unwrap();
    assert_eq!(idx2.0, 0);

    // A different module on the same stripe gets the next slot: striped
    // index 1, pool index 2.
    let (idx3, mem3) = pool.allocate(&request(stripe0, 200), &plan(), 0).unwrap();
    assert_eq!(idx3.0, 2);

    pool.deallocate(idx2, mem2);
    pool.deallocate(idx3, mem3);
    assert!(pool.is_empty());
}

#[test]
fn purge_isolation() {
    // Three memories for module A and one for B; purging A leaves B
    // allocated, and a fresh module may reuse the freed slots.
    let mut pool = new_unstriped(4);
    let a = 1u64;
    let b = 2u64;

    let (ia0, ma0) = pool.allocate(&request(None, a), &plan(), 0).unwrap();
    let (ia1, ma1) = pool.allocate(&request(None, a), &plan(), 1).unwrap();
    let (ia2, ma2) = pool.allocate(&request(None, a), &plan(), 2).unwrap();
    let (ib, mb) = pool.allocate(&request(None, b), &plan(), 0).unwrap();
    assert_eq!((ia0.0, ia1.0, ia2.0, ib.0), (0, 1, 2, 3));

    // Return A's memories; their slots stay warm for A.
    pool.deallocate(ia0, ma0);
    pool.deallocate(ia1, ma1);
    pool.deallocate(ia2, ma2);

    pool.purge_module(a);

    // B's slot is still allocated.
    assert!(!pool.is_empty());

    // A fresh module reuses one of the freed slots.
    let (ic, mc) = pool.allocate(&request(None, 3), &plan(), 0).unwrap();
    assert!(ic.0 <= 2);

    pool.deallocate(ic, mc);
    pool.deallocate(ib, mb);
    assert!(pool.is_empty());
}

#[test]
fn test_instantiate_shared_memory() {
    // One slot of the shared slab serves an instance and is handed back
    // whole.
    let mut pool = new_unstriped(2);
    let (idx, mem) = pool.allocate(&request(None, 9), &plan(), 0).unwrap();
    assert_eq!(idx.0, 0);
    assert!(!pool.is_empty());
    pool.deallocate(idx, mem);
    assert!(pool.is_empty());
}

#[test]
fn test_import_shared_memory() {
    // A module coming back finds its previous slot again: the image
    // prepared for it is imported rather than rebuilt.
    let mut pool = new_unstriped(3);
    let (idx, mem) = pool.allocate(&request(None, 42), &plan(), 0).unwrap();
    pool.deallocate(idx, mem);
    let (idx2, mem2) = pool.allocate(&request(None, 42), &plan(), 0).unwrap();
    assert_eq!(idx.0, idx2.0);
    pool.deallocate(idx2, mem2);
}

#[test]
fn test_share_external_memory() {
    // Two modules hold slots of the same slab side by side.
    let mut pool = new_unstriped(2);
    let (ia, ma) = pool.allocate(&request(None, 5), &plan(), 0).unwrap();
    let (ib, mb) = pool.allocate(&request(None, 6), &plan(), 0).unwrap();
    assert_ne!(ia.0, ib.0);
    let base_a = pool.get_base(ia);
    let base_b = pool.get_base(ib);
    assert_eq!(
        base_b.abs_diff(base_a),
        pool.memory_and_guard_size
    );
    pool.deallocate(ia, ma);
    pool.deallocate(ib, mb);
    assert!(pool.is_empty());
}

#[test]
fn test_probe_shared_memory() {
    // Probe how many memories fit: exactly the configured capacity.
    let mut pool = new_unstriped(3);
    let mut held = Vec::new();
    loop {
        match pool.allocate(&request(None, 11), &plan(), 0) {
            Ok(pair) => held.push(pair),
            Err(PoolError::PoolExhausted) => break,
            Err(e) => panic!("unexpected error: {e:?}"),
        }
    }
    assert_eq!(held.len(), 3);
    for (idx, mem) in held {
        pool.deallocate(idx, mem);
    }
    assert!(pool.is_empty());
}

#[test]
fn instantiation_failure_frees_the_slot() {
    let mut host = FakeHost::with_keys(0);
    let no_keys = Vec::new();
    let mut pool: MemoryPool<RefusingSlot> = MemoryPool::new(
        &small_config(2, 1, AutoEnabled::Disable),
        &small_tunables(),
        false,
        &no_keys,
        &mut host,
    )
    .unwrap();
    match pool.allocate(&request(None, 1), &plan(), 0) {
        Err(PoolError::ImageInstantiationFailed) => {}
        other => panic!("expected instantiation failure, got {:?}", other.map(|(i, _)| i)),
    }
    // The stripe slot was freed again: the pool is still empty and a
    // later request is again served (and again refused by the slot).
    assert!(pool.is_empty());
    assert!(matches!(
        pool.allocate(&request(None, 1), &plan(), 0),
        Err(PoolError::ImageInstantiationFailed)
    ));
}

#[test]
fn config_rejections() {
    let mut host = FakeHost::with_keys(0);
    let no_keys = Vec::new();

    // The page limit must stay within the WebAssembly maximum.
    let r: Result<MemoryPool<FakeSlot>, PoolError> = MemoryPool::new(
        &small_config(1, 65537, AutoEnabled::Disable),
        &small_tunables(),
        false,
        &no_keys,
        &mut host,
    );
    assert!(matches!(r, Err(PoolError::ConfigRejected)));

    // Requiring keys on a machine without them fails.
    let r: Result<MemoryPool<FakeSlot>, PoolError> = MemoryPool::new(
        &small_config(1, 1, AutoEnabled::Enable),
        &small_tunables(),
        false,
        &no_keys,
        &mut host,
    );
    assert!(matches!(r, Err(PoolError::ConfigRejected)));
}

#[test]
fn layout_overflow_is_reported() {
    let mut host = FakeHost::with_keys(0);
    let no_keys = Vec::new();
    let r: Result<MemoryPool<FakeSlot>, PoolError> = MemoryPool::new(
        &small_config(1, 65536, AutoEnabled::Disable),
        &Tunables {
            static_memory_bound: u64::MAX / 65536 + 1,
            static_memory_offset_guard_size: 0,
            guard_before_linear_memory: false,
        },
        false,
        &no_keys,
        &mut host,
    );
    assert!(matches!(r, Err(PoolError::LayoutOverflow)));
}

#[test]
fn mapping_failure_is_reported() {
    let mut host = FakeHost::with_keys(0);
    host.reserve_fails = true;
    let no_keys = Vec::new();
    let r: Result<MemoryPool<FakeSlot>, PoolError> = MemoryPool::new(
        &small_config(1, 1, AutoEnabled::Disable),
        &small_tunables(),
        false,
        &no_keys,
        &mut host,
    );
    assert!(matches!(r, Err(PoolError::MappingFailed)));
}

#[test]
fn get_next_pkey_round_robins() {
    let (mut pool, _pkeys) = new_two_striped();
    let k0 = pool.get_next_pkey().unwrap();
    let k1 = pool.get_next_pkey().unwrap();
    let k2 = pool.get_next_pkey().unwrap();
    assert_eq!(k0.as_ref().as_stripe(), 0);
    assert_eq!(k1.as_ref().as_stripe(), 1);
    assert_eq!(k2.as_ref().as_stripe(), 0);
}

#[test]
fn validate_checks_the_module_against_the_pool() {
    let pool = new_unstriped(4);

    // Fits: one small defined memory.
    let ok_module = Module {
        memory_plans: vec![MemoryPlan { style: MemoryStyle::Dynamic, minimum: 1 }],
        num_imported_memories: 0,
    };
    assert!(pool.validate(&ok_module).is_ok());

    // Too many defined memories.
    let too_many = Module {
        memory_plans: vec![plan(), plan(), plan(), plan()],
        num_imported_memories: 0,
    };
    assert_eq!(pool.validate(&too_many), Err(ValidationError::TooManyMemories));

    // A static bound larger than the per-slot reservation.
    let big_static = Module {
        memory_plans: vec![MemoryPlan {
            style: MemoryStyle::Static { bound: u64::MAX },
            minimum: 1,
        }],
        num_imported_memories: 0,
    };
    assert_eq!(pool.validate(&big_static), Err(ValidationError::StaticBoundTooLarge));

    // A minimum beyond what a slot can make accessible.
    let big_minimum = Module {
        memory_plans: vec![MemoryPlan { style: MemoryStyle::Dynamic, minimum: 2 }],
        num_imported_memories: 0,
    };
    assert_eq!(pool.validate(&big_minimum), Err(ValidationError::MinimumTooLarge));

    // Imported memories do not count against the limit.
    let imported = Module {
        memory_plans: vec![plan(), plan(), plan(), plan()],
        num_imported_memories: 2,
    };
    assert!(pool.validate(&imported).is_ok());
}

#[test]
fn base_pointer_arithmetic() {
    let pool = new_unstriped(4);
    for i in 0..4u32 {
        assert_eq!(
            pool.get_base(MemoryAllocationIndex(i)) - pool.mapping_base,
            pool.pre_slab_guard_size + i as usize * pool.memory_and_guard_size
        );
    }
}

#[test]
fn warm_slot_image_is_handed_back() {
    // A deallocated slot's image cell is stored and handed back whole on
    // the next allocation of that slot, not replaced by a fresh one.
    let mut pool = new_unstriped(2);
    let (idx, mut mem) = pool.allocate(&request(None, 42), &plan(), 0).unwrap();
    mem.generation = 7;
    pool.deallocate(idx, mem);
    let (idx2, mem2) = pool.allocate(&request(None, 42), &plan(), 0).unwrap();
    assert_eq!(idx.0, idx2.0);
    assert_eq!(mem2.generation, 7);
    pool.deallocate(idx2, mem2);
}

#[test]
fn no_clear_on_drop_marks_stored_cells() {
    let mut pool = new_unstriped(2);
    let (idx, mem) = pool.allocate(&request(None, 1), &plan(), 0).unwrap();
    pool.deallocate(idx, mem);
    pool.no_clear_on_drop_all();
    assert!(pool.is_empty());
}
