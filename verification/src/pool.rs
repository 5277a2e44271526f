//! The pool of WebAssembly linear memories.
//!
//! A single contiguous reservation (the *slab*) is divided into
//! fixed-size, page-aligned slots, assigned round-robin to *stripes*: slot
//! `i` belongs to stripe `i mod num_stripes`, and when protection keys are
//! in use every slot is marked with its stripe's key, so that a slot's
//! neighbours act as its guard region.
//!
//! The pool itself is pure state: layout numbers, one [`StripeAllocator`]
//! per stripe, and an image-slot table. The host supplies the reservation
//! and the per-slot image handling through the [`SlabHost`] and
//! [`MemorySlot`] capabilities; every decision — slot choice, index
//! arithmetic, striping, purge — is made and verified here.

use vstd::prelude::*;

use crate::layout::{calculate, LayoutOverflow, SlabConstraints};
use crate::mpk::{MpkRuntime, PkeyRef};
use crate::stripe_alloc::{
    count_affine,
    count_free,
    spec_after_free,
    spec_alloc_choice,
    MemoryInModule,
    SlotId,
    StripeAllocator,
};

verus! {

/// Size in bytes of one WebAssembly page.
pub const WASM_PAGE_SIZE: u32 = 65536;

/// The largest memory size a module may declare, in WebAssembly pages.
pub const MAX_MEMORY_PAGES: u64 = 65536;

/// Whether a feature is switched on, off, or left to runtime detection.
#[derive(Clone, Copy, Debug, PartialEq, Eq, Structural)]
pub enum AutoEnabled {
    /// Use the feature when the machine supports it.
    Auto,
    /// Require the feature; fail where unsupported.
    Enable,
    /// Never use the feature.
    Disable,
}

/// Per-instance resource limits observed by the memory pool.
#[derive(Clone, Copy, Debug)]
pub struct InstanceLimits {
    /// Pool capacity: how many linear memories may live at once.
    pub total_memories: u32,
    /// How many memories a single core module instance may define.
    pub max_memories_per_module: u32,
    /// Per-memory maximum size, in WebAssembly pages.
    pub memory_pages: u64,
}

impl Default for InstanceLimits {
    /// One thousand pooled memories, one memory per module, 10 MiB each.
    fn default() -> (r: InstanceLimits)
        ensures
            r.total_memories == 1000,
            r.max_memories_per_module == 1,
            r.memory_pages == 160,
    {
        InstanceLimits { total_memories: 1000, max_memories_per_module: 1, memory_pages: 160 }
    }
}

/// Configuration of the pooling allocator that the memory pool observes.
#[derive(Clone, Copy, Debug)]
pub struct PoolingInstanceAllocatorConfig {
    /// The instance limits.
    pub limits: InstanceLimits,
    /// How many freed slots may keep their module affinity.
    pub max_unused_warm_slots: u32,
    /// How many bytes of a deallocated memory stay resident (zeroed) for
    /// the next instance.
    pub linear_memory_keep_resident: usize,
    /// The memory-protection-key policy.
    pub memory_protection_keys: AutoEnabled,
}

impl Default for PoolingInstanceAllocatorConfig {
    /// Default limits, one hundred warm slots, nothing kept resident, MPK
    /// by detection.
    fn default() -> (r: PoolingInstanceAllocatorConfig)
        ensures
            r.limits.total_memories == 1000,
            r.limits.max_memories_per_module == 1,
            r.limits.memory_pages == 160,
            r.max_unused_warm_slots == 100,
            r.linear_memory_keep_resident == 0,
            r.memory_protection_keys == AutoEnabled::Auto,
    {
        PoolingInstanceAllocatorConfig {
            limits: InstanceLimits::default(),
            max_unused_warm_slots: 100,
            linear_memory_keep_resident: 0,
            memory_protection_keys: AutoEnabled::Auto,
        }
    }
}

/// Engine tunables observed by the memory pool.
#[derive(Clone, Copy, Debug)]
pub struct Tunables {
    /// The static memory reservation per slot, in WebAssembly pages.
    pub static_memory_bound: u64,
    /// The trailing guard region per slot, in bytes.
    pub static_memory_offset_guard_size: u64,
    /// Whether a guard region precedes the first slot.
    pub guard_before_linear_memory: bool,
}

impl Default for Tunables {
    /// A 4 GiB reservation per memory, 2 GiB guards, and a leading guard.
    fn default() -> (r: Tunables)
        ensures
            r.static_memory_bound == 0x10000,
            r.static_memory_offset_guard_size == 0x8000_0000,
            r.guard_before_linear_memory == true,
    {
        Tunables {
            static_memory_bound: 0x10000,
            static_memory_offset_guard_size: 0x8000_0000,
            guard_before_linear_memory: true,
        }
    }
}

/// How a linear memory is laid out at runtime.
#[derive(Clone, Copy, Debug)]
pub enum MemoryStyle {
    /// The memory lives in a fixed reservation of `bound` WebAssembly
    /// pages; loads and stores need no bounds checks up to the guard.
    Static {
        /// The reservation size, in WebAssembly pages.
        bound: u64,
    },
    /// The memory moves as it grows.
    Dynamic,
}

/// What the pool needs to know of one declared linear memory.
#[derive(Clone, Copy, Debug)]
pub struct MemoryPlan {
    /// The memory's runtime style.
    pub style: MemoryStyle,
    /// The declared minimum size, in WebAssembly pages.
    pub minimum: u64,
}

/// What the pool needs to know of a compiled module: its memory plans, the
/// leading `num_imported_memories` of which are imports rather than
/// definitions.
#[derive(Clone, Debug)]
pub struct Module {
    /// One plan per memory, imported ones first.
    pub memory_plans: Vec<MemoryPlan>,
    /// How many of the plans describe imported memories.
    pub num_imported_memories: usize,
}

/// Why the pool rejects a module during validation.
#[derive(Clone, Copy, Debug, PartialEq, Eq, Structural)]
pub enum ValidationError {
    /// The module defines more memories than an instance may use.
    TooManyMemories,
    /// A static plan's reservation exceeds the pool's per-slot memory size.
    StaticBoundTooLarge,
    /// A memory's declared minimum exceeds what a slot can make accessible.
    MinimumTooLarge,
}

/// Why a pool operation failed.
#[derive(Clone, Copy, Debug, PartialEq, Eq, Structural)]
pub enum PoolError {
    /// The configuration violates a precondition: the page limit is over
    /// 65536, or protection keys were required on a machine without them.
    ConfigRejected,
    /// The slab arithmetic would overflow the address space.
    LayoutOverflow,
    /// The host could not reserve the slab, or marking a slot with its
    /// stripe's key failed.
    MappingFailed,
    /// Every slot of the chosen stripe is in use.
    PoolExhausted,
    /// The image slot rejected the requested image; the stripe slot has
    /// been freed again.
    ImageInstantiationFailed,
}

/// A slot index local to one stripe: dense within the stripe.
#[derive(Clone, Copy, Debug, PartialEq, Eq, Structural)]
pub struct StripedAllocationIndex(pub u32);

/// A slot index across the whole pool: dense over all stripes.
#[derive(Clone, Copy, Debug, PartialEq, Eq, Structural)]
pub struct MemoryAllocationIndex(pub u32);

impl MemoryAllocationIndex {
    /// The index as a plain `usize`.
    pub fn index(&self) -> (r: usize)
        ensures
            r == self.0,
    {
        self.0 as usize
    }
}

impl StripedAllocationIndex {
    /// Convert a stripe-local index to the pool-wide one: stripes interleave
    /// slots, so stripe `s` owns the pool slots congruent to `s` modulo the
    /// stripe count.
    pub fn as_unstriped_slot_index(self, stripe: usize, num_stripes: usize) -> (r:
        MemoryAllocationIndex)
        requires
            1 <= num_stripes <= u32::MAX,
            stripe < num_stripes,
            self.0 * num_stripes + stripe <= u32::MAX,
        ensures
            r.0 == self.0 * num_stripes + stripe,
    {
        let s: u32 = stripe as u32;
        let n: u32 = num_stripes as u32;
        proof {
            assert(self.0 * n == self.0 * num_stripes) by (nonlinear_arith)
                requires
                    n == num_stripes,
            ;
        }
        MemoryAllocationIndex(self.0 * n + s)
    }
}

/// The striped/pool-wide index pair is a bijection: converting a
/// stripe-local index to the pool-wide one and splitting it back with
/// division and remainder returns the original pair, and the pool-wide
/// index stays below the pool capacity whenever the stripe-local index is
/// below the stripe's share `⌊n/s⌋ + (stripe < n mod s)`.
pub proof fn lemma_allocation_index_bijection(
    striped: int,
    stripe: int,
    num_stripes: int,
    num_slots: int,
)
    requires
        0 <= stripe < num_stripes,
        0 <= striped,
        striped < num_slots / num_stripes + (if stripe < num_slots % num_stripes {
            1int
        } else {
            0int
        }),
    ensures
        (striped * num_stripes + stripe) % num_stripes == stripe,
        (striped * num_stripes + stripe) / num_stripes == striped,
        striped * num_stripes + stripe < num_slots,
{
    let alloc = striped * num_stripes + stripe;
    vstd::arithmetic::div_mod::lemma_fundamental_div_mod_converse(
        alloc,
        num_stripes,
        striped,
        stripe,
    );
    let q = num_slots / num_stripes;
    let m = num_slots % num_stripes;
    vstd::arithmetic::div_mod::lemma_fundamental_div_mod(num_slots, num_stripes);
    assert(num_slots == q * num_stripes + m) by (nonlinear_arith)
        requires
            num_slots == num_stripes * q + m,
    ;
    if stripe < m {
        assert(alloc < num_slots) by (nonlinear_arith)
            requires
                alloc == striped * num_stripes + stripe,
                num_slots == q * num_stripes + m,
                striped <= q,
                stripe < m,
                m < num_stripes || num_stripes <= 0,
                0 <= stripe < num_stripes,
                0 <= striped,
        ;
    } else {
        assert(alloc < num_slots) by (nonlinear_arith)
            requires
                alloc == striped * num_stripes + stripe,
                num_slots == q * num_stripes + m,
                striped < q,
                0 <= m <= stripe,
                0 <= stripe < num_stripes,
                0 <= striped,
        ;
    }
}

/// Validate a module against pool limits `memories_per_instance` (how many
/// memories one instance may define), `memory_size` (bytes reserved per
/// slot) and `max_accessible` (bytes a slot can make accessible): the
/// module must not define too many memories, no static plan may outgrow
/// the slot reservation, and no declared minimum may outgrow the
/// accessible region.
pub open spec fn spec_module_fits(
    module: Module,
    memories_per_instance: int,
    memory_size: int,
    max_accessible: int,
) -> bool {
    &&& module.memory_plans@.len() - module.num_imported_memories <= memories_per_instance
    &&& forall|i: int|
        module.num_imported_memories <= i < module.memory_plans@.len() ==> {
            let plan = #[trigger] module.memory_plans@[i];
            &&& (plan.style matches MemoryStyle::Static { bound } ==> bound <= memory_size)
            &&& plan.minimum <= max_accessible / (WASM_PAGE_SIZE as int)
        }
}


/// One per-slot image cell and its lifecycle, as the host implements it
/// over the real mapping (copy-on-write images, `madvise`, `mprotect`).
/// The pool promises nothing about these operations' outcomes; its own
/// contracts hold for any implementation.
pub trait MemorySlot: Sized {
    /// A fresh, empty slot over the `max_accessible` bytes at `base_addr`.
    fn create(base_addr: usize, max_accessible: usize) -> Self;

    /// Make the slot ready with `initial_size` accessible bytes and, where
    /// the host has one for `(module, memory_index)`, a copy-on-write
    /// image; reports success.
    fn instantiate(&mut self, initial_size: usize, module: Option<u64>, memory_index: u32) -> bool;

    /// Reset the slot for reuse, keeping `keep_resident` bytes mapped and
    /// zeroed; reports success.
    fn clear_and_remain_ready(&mut self, keep_resident: usize) -> bool;

    /// Drop any image from the slot; reports success.
    fn remove_image(&mut self) -> bool;

    /// Whether the slot currently differs from its clean state.
    fn is_dirty(&self) -> bool;

    /// Ask the slot's destructor to leave the mapping alone; the pool's
    /// one reservation is reclaimed as a whole.
    fn no_clear_on_drop(&mut self);
}

/// The address-space reservation the pool lives in, as the host provides
/// it.
pub trait SlabHost {
    /// Reserve `total` bytes of address space, the first `accessible` of
    /// them usable, the rest inaccessible; returns the page-aligned base
    /// address, or `None` when the reservation fails.
    fn reserve(&mut self, accessible: usize, total: usize) -> Option<usize>;
}

/// One stripe: a free-slot allocator and, when striping, the protection
/// key its slots are marked with.
#[derive(Debug)]
pub struct Stripe {
    /// The stripe's slot allocator.
    pub allocator: StripeAllocator,
    /// The stripe's protection key; `None` only in a single, unstriped
    /// pool.
    pub pkey: Option<PkeyRef>,
}

/// What the pool needs to know of an instance allocation request: the
/// protection key the store was pinned to, if any, and the module id for
/// slot affinity.
#[derive(Clone, Copy, Debug)]
pub struct AllocationRequest {
    /// The store's protection key; chooses the stripe.
    pub pkey: Option<PkeyRef>,
    /// The compiled module's unique id, if it has one.
    pub module_id: Option<u64>,
}

/// How many slots stripe `i` owns of `n` slots dealt round-robin onto `s`
/// stripes.
pub open spec fn stripe_share(n: int, s: int, i: int) -> int {
    n / s + if i < n % s {
        1int
    } else {
        0int
    }
}

/// The free slots of all stripes together.
pub open spec fn sum_free(stripes: Seq<Stripe>) -> int
    decreases stripes.len(),
{
    if stripes.len() == 0 {
        0
    } else {
        sum_free(stripes.drop_last()) + count_free(stripes.last().allocator@)
    }
}

/// A pool of WebAssembly linear memories: one slab reservation, its slots
/// dealt round-robin onto stripes, an image-slot cell per slot, and the
/// layout numbers. `M` is the host's image-slot implementation.
#[derive(Debug)]
pub struct MemoryPool<M: MemorySlot> {
    /// Base address of the slab reservation.
    pub mapping_base: usize,
    /// Total size of the slab reservation, in bytes.
    pub total_slab_size: usize,
    /// The stripes; slot `i` of the pool belongs to stripe
    /// `i mod stripes.len()`.
    pub stripes: Vec<Stripe>,
    /// One cell per pool slot; `None` while the slot's image is out with a
    /// memory (or was never created).
    pub image_slots: Vec<Option<M>>,
    /// Bytes reserved per slot for the memory itself, without its guard.
    pub memory_size: usize,
    /// Bytes per slot including the in-slot guard; the slot stride.
    pub memory_and_guard_size: usize,
    /// The most bytes a slot ever makes accessible.
    pub max_accessible: usize,
    /// Bytes of guard region before the first slot.
    pub pre_slab_guard_size: usize,
    /// Pool capacity in slots.
    pub max_total_memories: usize,
    /// How many memories one instance may define.
    pub memories_per_instance: usize,
    /// Bytes kept resident across deallocations.
    pub keep_resident: usize,
    /// Round-robin counter assigning stores to stripes.
    pub next_available_pkey: usize,
}

impl<M: MemorySlot> MemoryPool<M> {
    /// The pool's structural invariant: at least one stripe and no more
    /// than the 15 possible keys; one image cell per slot; each stripe
    /// sized to its round-robin share; stripe `i`'s key, where present, is
    /// the key of stripe index `i`; with two or more stripes every stripe
    /// has a key; every retained affinity names a memory index the pool
    /// probes at purge; a stored image cell belongs to a free slot; and
    /// the slab arithmetic stays within the address space.
    pub open spec fn wf(&self) -> bool {
        let s = self.stripes@.len() as int;
        let n = self.max_total_memories as int;
        &&& 1 <= s <= 15
        &&& self.image_slots@.len() == n
        &&& n <= u32::MAX
        &&& self.memories_per_instance <= u32::MAX
        &&& forall|i: int|
            0 <= i < s ==> (#[trigger] self.stripes@[i]).allocator@.len() == stripe_share(n, s, i)
        &&& forall|i: int|
            0 <= i < s ==> ((#[trigger] self.stripes@[i]).pkey matches Some(k) ==> k.spec_id() == i
                + 1)
        &&& (s >= 2 ==> forall|i: int| 0 <= i < s ==> (#[trigger] self.stripes@[i]).pkey is Some)
        &&& forall|i: int, j: int|
            0 <= i < s && 0 <= j < self.stripes@[i].allocator@.len()
                ==> ((#[trigger] self.stripes@[i].allocator@[j]).affinity matches Some(a)
                ==> a.memory_index < self.memories_per_instance)
        &&& forall|k: int|
            0 <= k < n && (#[trigger] self.image_slots@[k]) is Some ==> !self.stripes@[k % s].allocator@[k / s].used
        &&& self.spec_slab_fits()
    }

    /// The slab arithmetic stays within the address space: all the slots
    /// fit between the guards, and the reservation ends below the top of
    /// memory.
    pub open spec fn spec_slab_fits(&self) -> bool {
        &&& self.pre_slab_guard_size + self.max_total_memories * self.memory_and_guard_size
            <= self.total_slab_size
        &&& self.mapping_base + self.total_slab_size <= usize::MAX
    }

    /// Which stripe a request is served from: the stripe of its key, or
    /// stripe 0 where the pool is unstriped.
    pub open spec fn spec_stripe_of(request: AllocationRequest) -> int {
        match request.pkey {
            Some(k) => k.spec_id() - 1,
            None => 0,
        }
    }

    /// Whether no slot of the pool is handed out.
    pub open spec fn spec_is_empty(&self) -> bool {
        forall|i: int|
            0 <= i < self.stripes@.len() ==> count_free(
                (#[trigger] self.stripes@[i]).allocator@,
            ) == self.stripes@[i].allocator@.len()
    }

    /// Are zero slots in use right now?
    pub fn is_empty(&self) -> (r: bool)
        ensures
            r == self.spec_is_empty(),
    {
        let mut i: usize = 0;
        while i < self.stripes.len()
            invariant
                i <= self.stripes@.len(),
                forall|j: int|
                    0 <= j < i ==> count_free((#[trigger] self.stripes@[j]).allocator@)
                        == self.stripes@[j].allocator@.len(),
            decreases self.stripes@.len() - i,
        {
            if !self.stripes[i].allocator.is_empty() {
                return false;
            }
            i = i + 1;
        }
        true
    }

    /// The round-robin protection key for the next store: each call moves
    /// to the next stripe, so all memories of one store share a stripe.
    /// `None` exactly where the pool is unstriped and keyless.
    pub fn get_next_pkey(&mut self) -> (r: Option<PkeyRef>)
        requires
            old(self).wf(),
        ensures
            final(self).wf(),
            r == old(self).stripes@[(old(self).next_available_pkey as int) % (
            old(self).stripes@.len() as int)].pkey,
            final(self).next_available_pkey == (if old(self).next_available_pkey == usize::MAX {
                0usize
            } else {
                (old(self).next_available_pkey + 1) as usize
            }),
            final(self).stripes@ == old(self).stripes@,
            final(self).image_slots@ == old(self).image_slots@,
            final(self).stripes@.len() >= 2 ==> r is Some,
    {
        let index = self.next_available_pkey % self.stripes.len();
        self.next_available_pkey = self.next_available_pkey.wrapping_add(1);
        self.stripes[index].pkey
    }

    /// The base address of slot `index`: the slab base, the leading guard,
    /// then `index` whole slots.
    pub fn get_base(&self, allocation_index: MemoryAllocationIndex) -> (r: usize)
        requires
            self.spec_slab_fits(),
            allocation_index.0 < self.max_total_memories,
        ensures
            r == self.mapping_base + self.pre_slab_guard_size + allocation_index.0
                * self.memory_and_guard_size,
    {
        proof {
            lemma_offset_in_slab(
                self.max_total_memories as int,
                self.memory_and_guard_size as int,
                allocation_index.0 as int,
            );
        }
        let offset: usize = self.pre_slab_guard_size + allocation_index.index()
            * self.memory_and_guard_size;
        self.mapping_base + offset
    }

    /// Validate whether this memory pool supports the given module: not
    /// more defined memories than an instance may use, every static plan
    /// within the slot reservation, every declared minimum within the
    /// accessible region.
    pub fn validate(&self, module: &Module) -> (r: Result<(), ValidationError>)
        requires
            module.num_imported_memories <= module.memory_plans@.len(),
        ensures
            r is Ok <==> spec_module_fits(
                *module,
                self.memories_per_instance as int,
                self.memory_size as int,
                self.max_accessible as int,
            ),
    {
        let defined = module.memory_plans.len() - module.num_imported_memories;
        if defined > self.memories_per_instance {
            return Err(ValidationError::TooManyMemories);
        }
        let max = self.max_accessible / (WASM_PAGE_SIZE as usize);
        let mut i: usize = module.num_imported_memories;
        while i < module.memory_plans.len()
            invariant
                module.num_imported_memories <= i <= module.memory_plans@.len(),
                forall|j: int|
                    module.num_imported_memories <= j < i ==> {
                        let plan = #[trigger] module.memory_plans@[j];
                        &&& (plan.style matches MemoryStyle::Static { bound } ==> bound
                            <= self.memory_size)
                        &&& plan.minimum <= self.max_accessible as int / (WASM_PAGE_SIZE as int)
                    },
                max == self.max_accessible as int / (WASM_PAGE_SIZE as int),
            decreases module.memory_plans@.len() - i,
        {
            let plan = module.memory_plans[i];
            match plan.style {
                MemoryStyle::Static { bound } => {
                    if (self.memory_size as u64) < bound {
                        return Err(ValidationError::StaticBoundTooLarge);
                    }
                },
                MemoryStyle::Dynamic => {},
            }
            if plan.minimum > max as u64 {
                return Err(ValidationError::MinimumTooLarge);
            }
            i = i + 1;
        }
        Ok(())
    }
}

/// A slot offset stays within the slab when the index is within capacity.
proof fn lemma_offset_in_slab(n: int, slot: int, i: int)
    requires
        0 <= i < n,
        0 <= slot,
    ensures
        i * slot <= n * slot - slot,
        i * slot >= 0,
{
    assert(i * slot <= (n - 1) * slot && (n - 1) * slot == n * slot - slot && i * slot >= 0)
        by (nonlinear_arith)
        requires
            0 <= i < n,
            0 <= slot,
    ;
}


/// Whether the MPK policy asks for keys on this machine: by detection for
/// `Auto`, always for `Enable` (construction fails separately where
/// unsupported), never for `Disable`.
pub open spec fn spec_use_keys(policy: AutoEnabled, supported: bool) -> bool {
    match policy {
        AutoEnabled::Auto => supported,
        AutoEnabled::Enable => supported,
        AutoEnabled::Disable => false,
    }
}

/// Whether the configuration is rejected outright: a page limit over the
/// WebAssembly maximum, or keys required on a machine without them.
pub open spec fn spec_config_rejected(
    config: PoolingInstanceAllocatorConfig,
    supported: bool,
) -> bool {
    ||| config.limits.memory_pages > MAX_MEMORY_PAGES
    ||| (config.memory_protection_keys == AutoEnabled::Enable && !supported)
}

/// The per-slot memory budget in bytes: the larger of the declared page
/// limit and the static reservation, in whole WebAssembly pages.
pub open spec fn spec_max_memory_bytes(
    config: PoolingInstanceAllocatorConfig,
    tunables: Tunables,
) -> int {
    vstd::math::max(
        config.limits.memory_pages as int,
        tunables.static_memory_bound as int,
    ) * (WASM_PAGE_SIZE as int)
}

/// The constraints the pool hands the layout calculator, once the memory
/// budget `mm` is known to fit a platform word.
pub open spec fn spec_pool_constraints(
    config: PoolingInstanceAllocatorConfig,
    tunables: Tunables,
    supported: bool,
    nkeys: usize,
    mm: usize,
) -> SlabConstraints {
    SlabConstraints {
        max_memory_bytes: mm,
        num_memory_slots: config.limits.total_memories as usize,
        num_pkeys_available: if spec_use_keys(config.memory_protection_keys, supported) {
            nkeys
        } else {
            0
        },
        guard_bytes: tunables.static_memory_offset_guard_size as usize,
        guard_before_slots: tunables.guard_before_linear_memory,
    }
}

/// Whether the pool arithmetic fits a platform word: the memory budget,
/// the guard request, and the slab layout itself.
pub open spec fn spec_pool_fits(
    config: PoolingInstanceAllocatorConfig,
    tunables: Tunables,
    supported: bool,
    nkeys: usize,
) -> bool {
    &&& spec_max_memory_bytes(config, tunables) <= usize::MAX
    &&& tunables.static_memory_offset_guard_size <= usize::MAX
    &&& crate::layout::spec_layout_fits(
        spec_pool_constraints(
            config,
            tunables,
            supported,
            nkeys,
            spec_max_memory_bytes(config, tunables) as usize,
        ),
    )
}

/// Appending a stripe adds its free slots to the total.
proof fn lemma_sum_free_push(stripes: Seq<Stripe>, s: Stripe)
    ensures
        sum_free(stripes.push(s)) == sum_free(stripes) + count_free(s.allocator@),
{
    assert(stripes.push(s).drop_last() =~= stripes);
}

/// The round-robin shares of `n` slots over `s` stripes sum to `n`
/// exactly: `s·⌊n/s⌋` plus one for each of the first `n mod s` stripes.
proof fn lemma_shares_sum(n: int, s: int)
    requires
        1 <= s,
        0 <= n,
    ensures
        s * (n / s) + n % s == n,
        0 <= n % s < s,
        0 <= n / s,
{
    vstd::arithmetic::div_mod::lemma_fundamental_div_mod(n, s);
    vstd::arithmetic::div_mod::lemma_mod_bound(n, s);
    vstd::arithmetic::div_mod::lemma_div_pos_is_pos(n, s);
    assert(s * (n / s) == (n / s) * s) by (nonlinear_arith);
}

impl<M: MemorySlot> MemoryPool<M> {
    /// Create a new memory pool.
    ///
    /// The caller resolves the machine facts once per process and passes
    /// them in: whether MPK is supported, and the kernel's keys in stripe
    /// order. The pool checks the configuration, computes the slab layout,
    /// asks the host for the reservation and — when striping — marks each
    /// slot with its stripe's key.
    ///
    /// The result is pinned except where the host decides: the
    /// configuration is rejected exactly when the page limit is over
    /// 65536 or keys were required without support; the layout overflows
    /// exactly when the slab arithmetic leaves the platform word; after
    /// that, only a failed reservation or a failed marking stands between
    /// the caller and a well-formed, fully empty pool laid out as the
    /// calculator says.
    #[verifier::loop_isolation(false)]
    pub fn new<H: SlabHost + MpkRuntime>(
        config: &PoolingInstanceAllocatorConfig,
        tunables: &Tunables,
        mpk_supported: bool,
        available_keys: &Vec<PkeyRef>,
        host: &mut H,
    ) -> (r: Result<MemoryPool<M>, PoolError>)
        requires
            available_keys@.len() <= 15,
            forall|i: int|
                0 <= i < available_keys@.len() ==> (#[trigger] available_keys@[i]).spec_id() == i
                    + 1,
        ensures
            r == Err::<MemoryPool<M>, PoolError>(PoolError::ConfigRejected) <==> spec_config_rejected(
                *config,
                mpk_supported,
            ),
            !spec_config_rejected(*config, mpk_supported) ==> (r == Err::<
                MemoryPool<M>,
                PoolError,
            >(PoolError::LayoutOverflow) <==> !spec_pool_fits(
                *config,
                *tunables,
                mpk_supported,
                available_keys@.len() as usize,
            )),
            !spec_config_rejected(*config, mpk_supported) && spec_pool_fits(
                *config,
                *tunables,
                mpk_supported,
                available_keys@.len() as usize,
            ) ==> (r is Ok || r == Err::<MemoryPool<M>, PoolError>(PoolError::MappingFailed)),
            r matches Ok(p) ==> {
                let cons = spec_pool_constraints(
                    *config,
                    *tunables,
                    mpk_supported,
                    available_keys@.len() as usize,
                    p.memory_size,
                );
                &&& p.wf()
                &&& p.memory_size == spec_max_memory_bytes(*config, *tunables)
                &&& p.memory_and_guard_size == crate::layout::spec_slot_bytes(cons)
                &&& p.pre_slab_guard_size == crate::layout::spec_pre_guard(cons)
                &&& p.total_slab_size == crate::layout::spec_total_slab(cons)
                &&& p.stripes@.len() == crate::layout::spec_num_stripes(cons)
                &&& p.max_total_memories == config.limits.total_memories
                &&& p.memories_per_instance == config.limits.max_memories_per_module
                &&& p.max_accessible == config.limits.memory_pages * WASM_PAGE_SIZE
                &&& p.keep_resident == config.linear_memory_keep_resident
                &&& p.next_available_pkey == 0
                &&& forall|i: int|
                    0 <= i < p.stripes@.len() ==> ((#[trigger] p.stripes@[i]).pkey is Some <==> (
                    spec_use_keys(config.memory_protection_keys, mpk_supported) && i
                        < available_keys@.len()))
                &&& sum_free(p.stripes@) == p.max_total_memories
                &&& p.spec_is_empty()
                &&& forall|k: int|
                    0 <= k < p.image_slots@.len() ==> (#[trigger] p.image_slots@[k]) is None
            },
    {
        if config.limits.memory_pages > MAX_MEMORY_PAGES {
            return Err(PoolError::ConfigRejected);
        }
        let use_keys: bool = match config.memory_protection_keys {
            AutoEnabled::Auto => mpk_supported,
            AutoEnabled::Enable => {
                if !mpk_supported {
                    return Err(PoolError::ConfigRejected);
                }
                true
            },
            AutoEnabled::Disable => false,
        };
        let num_keys: usize = if use_keys {
            available_keys.len()
        } else {
            0
        };

        // The reservation per slot: the larger of the page limit and the
        // static bound, in bytes.
        let pages: u64 = config.limits.memory_pages;
        let bound: u64 = tunables.static_memory_bound;
        let max_pages: u64 = if pages > bound {
            pages
        } else {
            bound
        };
        let mm_u64: u64 = match max_pages.checked_mul(WASM_PAGE_SIZE as u64) {
            Some(v) => v,
            None => {
                return Err(PoolError::LayoutOverflow);
            },
        };
        if mm_u64 > usize::MAX as u64 {
            return Err(PoolError::LayoutOverflow);
        }
        let guard_u64: u64 = tunables.static_memory_offset_guard_size;
        if guard_u64 > usize::MAX as u64 {
            return Err(PoolError::LayoutOverflow);
        }

        let constraints = SlabConstraints {
            max_memory_bytes: mm_u64 as usize,
            num_memory_slots: config.limits.total_memories as usize,
            num_pkeys_available: num_keys,
            guard_bytes: guard_u64 as usize,
            guard_before_slots: tunables.guard_before_linear_memory,
        };
        let layout = match calculate(&constraints) {
            Ok(l) => l,
            Err(LayoutOverflow) => {
                return Err(PoolError::LayoutOverflow);
            },
        };

        // One inaccessible reservation for the whole slab.
        let mapping_base: usize = match host.reserve(0, layout.total_slab_bytes) {
            Some(b) => b,
            None => {
                return Err(PoolError::MappingFailed);
            },
        };
        if mapping_base > usize::MAX - layout.total_slab_bytes {
            return Err(PoolError::MappingFailed);
        }

        let n: usize = config.limits.total_memories as usize;
        let s: usize = layout.num_stripes;

        proof {
            assert((n as int) * (layout.slot_bytes as int) == (layout.slot_bytes as int) * (
            n as int)) by (nonlinear_arith);
        }

        // Stripe the slab: mark slot i with the key of stripe i mod s.
        if s >= 2 {
            let mut cursor: usize = layout.pre_slab_guard_bytes;
            let mut i: usize = 0;
            while i < n
                invariant
                    i <= n,
                    2 <= s <= num_keys <= available_keys@.len(),
                    cursor == layout.pre_slab_guard_bytes + i * layout.slot_bytes,
                    layout.pre_slab_guard_bytes + n * layout.slot_bytes
                        <= layout.total_slab_bytes,
                    mapping_base + layout.total_slab_bytes <= usize::MAX,
                decreases n - i,
            {
                proof {
                    lemma_offset_in_slab(n as int, layout.slot_bytes as int, i as int);
                    assert((i + 1) * layout.slot_bytes == i * layout.slot_bytes
                        + layout.slot_bytes) by (nonlinear_arith);
                }
                let key_index: usize = i % s;
                let pkey = available_keys[key_index];
                let addr: usize = mapping_base + cursor;
                match pkey.as_ref().mark(host, addr, layout.slot_bytes) {
                    Ok(_) => {},
                    Err(_) => {
                        return Err(PoolError::MappingFailed);
                    },
                }
                cursor = cursor + layout.slot_bytes;
                i = i + 1;
            }
            // The cursor lands exactly at the start of the trailing guard.
            assert(cursor + layout.post_slab_guard_bytes == layout.total_slab_bytes);
        }

        // One empty image cell per slot.
        let mut image_slots: Vec<Option<M>> = Vec::new();
        let mut i: usize = 0;
        while i < n
            invariant
                image_slots@.len() == i,
                i <= n,
                forall|k: int| 0 <= k < i ==> (#[trigger] image_slots@[k]) is None,
            decreases n - i,
        {
            image_slots.push(None);
            i = i + 1;
        }

        // One allocator per stripe; slot counts are floor(n/s) plus one
        // extra for the first n mod s stripes, so the total is exactly n.
        let mut stripes: Vec<Stripe> = Vec::new();
        let mut i: usize = 0;
        while i < s
            invariant
                i <= s,
                1 <= s <= 15,
                s <= u32::MAX,
                n <= u32::MAX,
                use_keys ==> num_keys == available_keys@.len(),
                s >= 2 ==> s <= num_keys,
                num_keys <= available_keys@.len() <= 15,
                num_keys >= 1 ==> use_keys,
                forall|j: int|
                    0 <= j < available_keys@.len() ==> (#[trigger] available_keys@[j]).spec_id()
                        == j + 1,
                stripes@.len() == i,
                forall|j: int|
                    0 <= j < i ==> (#[trigger] stripes@[j]).allocator@.len() == stripe_share(
                        n as int,
                        s as int,
                        j,
                    ),
                forall|j: int|
                    0 <= j < i ==> count_free((#[trigger] stripes@[j]).allocator@)
                        == stripes@[j].allocator@.len(),
                forall|j: int|
                    0 <= j < i ==> ((#[trigger] stripes@[j]).pkey matches Some(k) ==> k.spec_id()
                        == j + 1),
                forall|j: int|
                    0 <= j < i ==> (num_keys >= 1 && j < num_keys <==> (
                    #[trigger] stripes@[j]).pkey is Some),
                forall|j: int, l: int|
                    0 <= j < i && 0 <= l < stripes@[j].allocator@.len() ==> ((
                    #[trigger] stripes@[j].allocator@[l]).affinity is None),
                sum_free(stripes@) == i * ((n / s) as int) + vstd::math::min(
                    i as int,
                    (n % s) as int,
                ),
            decreases s - i,
        {
            let extra: usize = if n % s > i {
                1
            } else {
                0
            };
            proof {
                lemma_shares_sum(n as int, s as int);
                assert((n as int) / (s as int) + (extra as int) <= n) by (nonlinear_arith)
                    requires
                        1 <= s,
                        0 <= n,
                        (s as int) * ((n as int) / (s as int)) + (n as int) % (s as int)
                            == n as int,
                        0 <= (n as int) % (s as int) < s as int,
                        0 <= (n as int) / (s as int),
                        extra == if (n as int) % (s as int) > i as int {
                            1int
                        } else {
                            0int
                        },
                        0 <= i as int,
                ;
            }
            let share: usize = n / s + extra;
            let allocator = StripeAllocator::new(share as u32, config.max_unused_warm_slots);
            let pkey: Option<PkeyRef> = if use_keys && i < available_keys.len() {
                Some(available_keys[i])
            } else {
                None
            };
            let ghost before = stripes@;
            let stripe = Stripe { allocator, pkey };
            proof {
                lemma_sum_free_push(before, stripe);
                assert((i + 1) * ((n / s) as int) == i * ((n / s) as int) + ((n / s) as int))
                    by (nonlinear_arith);
            }
            stripes.push(stripe);
            i = i + 1;
        }
        proof {
            lemma_shares_sum(n as int, s as int);
            assert((s as int) * ((n as int) / (s as int)) == ((n as int) / (s as int)) * (
            s as int)) by (nonlinear_arith);
            assert(sum_free(stripes@) == n);
        }

        let pool = MemoryPool {
            mapping_base,
            total_slab_size: layout.total_slab_bytes,
            stripes,
            image_slots,
            memory_size: constraints.max_memory_bytes,
            memory_and_guard_size: layout.slot_bytes,
            max_accessible: (config.limits.memory_pages as usize) * (WASM_PAGE_SIZE as usize),
            pre_slab_guard_size: layout.pre_slab_guard_bytes,
            max_total_memories: n,
            memories_per_instance: config.limits.max_memories_per_module as usize,
            keep_resident: config.linear_memory_keep_resident,
            next_available_pkey: 0,
        };
        Ok(pool)
    }
}


/// Splitting a pool-wide index with division and remainder lands inside
/// the owning stripe: the remainder names the stripe, the quotient stays
/// below that stripe's share.
pub proof fn lemma_allocation_index_split(alloc: int, s: int, n: int)
    requires
        0 <= alloc < n,
        1 <= s,
    ensures
        0 <= alloc % s < s,
        0 <= alloc / s,
        alloc / s < stripe_share(n, s, alloc % s),
        alloc == (alloc / s) * s + alloc % s,
{
    vstd::arithmetic::div_mod::lemma_fundamental_div_mod(alloc, s);
    vstd::arithmetic::div_mod::lemma_mod_bound(alloc, s);
    vstd::arithmetic::div_mod::lemma_div_pos_is_pos(alloc, s);
    vstd::arithmetic::div_mod::lemma_fundamental_div_mod(n, s);
    vstd::arithmetic::div_mod::lemma_mod_bound(n, s);
    vstd::arithmetic::div_mod::lemma_div_pos_is_pos(n, s);
    let qa = alloc / s;
    let ra = alloc % s;
    let qn = n / s;
    let m = n % s;
    assert(alloc == qa * s + ra && n == qn * s + m) by (nonlinear_arith)
        requires
            alloc == s * qa + ra,
            n == s * qn + m,
    ;
    if ra < m {
        assert(qa <= qn) by (nonlinear_arith)
            requires
                alloc == qa * s + ra,
                n == qn * s + m,
                alloc < n,
                0 <= ra < s,
                0 <= m < s,
                1 <= s,
        ;
    } else {
        assert(qa < qn) by (nonlinear_arith)
            requires
                alloc == qa * s + ra,
                n == qn * s + m,
                alloc < n,
                0 <= ra < s,
                0 <= m <= ra,
                1 <= s,
        ;
    }
}

impl<M: MemorySlot> MemoryPool<M> {
    /// Take ownership of slot `allocation_index`'s image cell, creating a
    /// fresh slot over the slot's base address where the cell was empty.
    /// The cell is empty afterwards; everything else is untouched, and a
    /// stored slot — its prepared copy-on-write image included — is what
    /// the caller receives.
    fn take_memory_image_slot(&mut self, allocation_index: MemoryAllocationIndex) -> (r: M)
        requires
            old(self).spec_slab_fits(),
            allocation_index.0 < old(self).max_total_memories,
            allocation_index.0 < old(self).image_slots@.len(),
        ensures
            final(self).image_slots@ == old(self).image_slots@.update(
                allocation_index.0 as int,
                Option::<M>::None,
            ),
            old(self).image_slots@[allocation_index.0 as int] matches Some(m) ==> r == m,
            final(self).stripes@ == old(self).stripes@,
            same_pool_frame(*old(self), *final(self)),
    {
        let idx = allocation_index.index();
        let taken: Option<M> = self.image_slots[idx].take();
        proof {
            assert(final(self).image_slots@ =~= old(self).image_slots@.update(
                allocation_index.0 as int,
                Option::<M>::None,
            ));
        }
        match taken {
            Some(slot) => slot,
            None => {
                let base = self.get_base(allocation_index);
                M::create(base, self.max_accessible)
            },
        }
    }

    /// Store a (clean) image slot back into slot `allocation_index`'s
    /// cell. Everything else is untouched.
    fn return_memory_image_slot(
        &mut self,
        allocation_index: MemoryAllocationIndex,
        slot: M,
    )
        requires
            allocation_index.0 < old(self).image_slots@.len(),
        ensures
            final(self).image_slots@ == old(self).image_slots@.update(
                allocation_index.0 as int,
                Some(slot),
            ),
            final(self).stripes@ == old(self).stripes@,
            same_pool_frame(*old(self), *final(self)),
    {
        let idx = allocation_index.index();
        self.image_slots[idx] = Some(slot);
        proof {
            assert(final(self).image_slots@ =~= old(self).image_slots@.update(
                allocation_index.0 as int,
                Some(slot),
            ));
        }
    }
}

/// The pool's layout numbers and counters that allocation, deallocation
/// and purging never touch.
pub open spec fn same_pool_frame<M: MemorySlot>(a: MemoryPool<M>, b: MemoryPool<M>) -> bool {
    &&& b.mapping_base == a.mapping_base
    &&& b.total_slab_size == a.total_slab_size
    &&& b.memory_size == a.memory_size
    &&& b.memory_and_guard_size == a.memory_and_guard_size
    &&& b.max_accessible == a.max_accessible
    &&& b.pre_slab_guard_size == a.pre_slab_guard_size
    &&& b.max_total_memories == a.max_total_memories
    &&& b.memories_per_instance == a.memories_per_instance
    &&& b.keep_resident == a.keep_resident
    &&& b.next_available_pkey == a.next_available_pkey
    &&& b.stripes@.len() == a.stripes@.len()
    &&& b.image_slots@.len() == a.image_slots@.len()
}


impl<M: MemorySlot> MemoryPool<M> {
    /// The affinity an allocation request carries: the module id paired
    /// with the memory index, where the module has an id at all.
    pub open spec fn spec_affinity_of(
        request: AllocationRequest,
        memory_index: u32,
    ) -> Option<MemoryInModule> {
        match request.module_id {
            Some(m) => Some(MemoryInModule { module: m, memory_index }),
            None => None,
        }
    }

    /// Allocate a single memory for the given instance allocation request.
    ///
    /// The stripe is the request key's stripe (stripe 0 in an unstriped
    /// pool); within it, the stripe allocator picks the lowest warm match
    /// for `(module, memory_index)`, else the lowest free slot. The pool
    /// hands out the slot's image cell — creating a fresh one over the
    /// slot's base address if need be — after asking it to instantiate;
    /// on instantiation failure the stripe slot is freed again before the
    /// error propagates, and the image cell stays out (dropped), so no
    /// slot leaks either way.
    ///
    /// Fails with `PoolExhausted` exactly when the chosen stripe has no
    /// free slot; whether instantiation succeeds is the host's decision.
    pub fn allocate(
        &mut self,
        request: &AllocationRequest,
        memory_plan: &MemoryPlan,
        memory_index: u32,
    ) -> (r: Result<(MemoryAllocationIndex, M), PoolError>)
        requires
            old(self).wf(),
            memory_index < old(self).memories_per_instance,
            match request.pkey {
                Some(k) => k.spec_id() - 1 < old(self).stripes@.len(),
                None => old(self).stripes@.len() == 1,
            },
            memory_plan.minimum * WASM_PAGE_SIZE <= usize::MAX,
        ensures
            final(self).wf(),
            same_pool_frame(*old(self), *final(self)),
            ({
                let st = Self::spec_stripe_of(*request);
                let aff = Self::spec_affinity_of(*request, memory_index);
                let stripe_view = old(self).stripes@[st].allocator@;
                let ch = spec_alloc_choice(stripe_view, aff);
                &&& (r == Err::<(MemoryAllocationIndex, M), PoolError>(PoolError::PoolExhausted)
                    <==> count_free(stripe_view) == 0)
                &&& r == Err::<(MemoryAllocationIndex, M), PoolError>(PoolError::PoolExhausted)
                    ==> final(self).stripes@ == old(self).stripes@ && final(self).image_slots@
                        == old(self).image_slots@
                &&& r matches Ok((idx, _slot)) ==> {
                    &&& ch < stripe_view.len()
                    &&& idx.0 == ch * old(self).stripes@.len() + st
                    &&& idx.0 < old(self).max_total_memories
                    &&& final(self).stripes@[st].allocator@ == stripe_view.update(
                        ch,
                        crate::stripe_alloc::Slot {
                            used: true,
                            affinity: aff,
                            stamp: stripe_view[ch].stamp,
                        },
                    )
                    &&& forall|j: int|
                        0 <= j < old(self).stripes@.len() && j != st
                            ==> final(self).stripes@[j] == old(self).stripes@[j]
                    &&& final(self).image_slots@ == old(self).image_slots@.update(
                        idx.0 as int,
                        Option::<M>::None,
                    )
                    &&& count_free(final(self).stripes@[st].allocator@) == count_free(stripe_view)
                        - 1
                }
                &&& r == Err::<(MemoryAllocationIndex, M), PoolError>(
                    PoolError::ImageInstantiationFailed,
                ) ==> {
                    &&& ch < stripe_view.len()
                    &&& final(self).stripes@[st].allocator@ == spec_after_free(
                        stripe_view.update(
                            ch,
                            crate::stripe_alloc::Slot {
                                used: true,
                                affinity: aff,
                                stamp: stripe_view[ch].stamp,
                            },
                        ),
                        ch,
                        old(self).stripes@[st].allocator.spec_clock(),
                        old(self).stripes@[st].allocator.spec_max_warm(),
                    )
                    &&& count_free(final(self).stripes@[st].allocator@) == count_free(stripe_view)
                    &&& forall|j: int|
                        0 <= j < old(self).stripes@.len() && j != st
                            ==> final(self).stripes@[j] == old(self).stripes@[j]
                    &&& final(self).image_slots@ == old(self).image_slots@.update(
                        (ch * old(self).stripes@.len() + st) as int,
                        Option::<M>::None,
                    )
                }
                &&& (r is Ok || r == Err::<(MemoryAllocationIndex, M), PoolError>(
                    PoolError::PoolExhausted,
                ) || r == Err::<(MemoryAllocationIndex, M), PoolError>(
                    PoolError::ImageInstantiationFailed,
                ))
            }),
    {
        let stripe_index: usize = match &request.pkey {
            Some(k) => k.as_ref().as_stripe(),
            None => 0,
        };
        let affinity: Option<MemoryInModule> = match request.module_id {
            Some(m) => Some(MemoryInModule { module: m, memory_index }),
            None => None,
        };
        let num_stripes = self.stripes.len();
        let ghost stripe_view = self.stripes@[stripe_index as int].allocator@;

        let maybe = self.stripes[stripe_index].allocator.allocate(affinity);
        let striped: SlotId = match maybe {
            Some(id) => id,
            None => {
                proof {
                    assert(self.stripes@ =~= old(self).stripes@);
                    assert(self.image_slots@ =~= old(self).image_slots@);
                }
                return Err(PoolError::PoolExhausted);
            },
        };
        proof {
            lemma_allocation_index_bijection(
                striped.0 as int,
                stripe_index as int,
                num_stripes as int,
                self.max_total_memories as int,
            );
        }
        let allocation_index = StripedAllocationIndex(striped.0).as_unstriped_slot_index(
            stripe_index,
            num_stripes,
        );

        let mut slot = self.take_memory_image_slot(allocation_index);
        let initial_size: usize = (memory_plan.minimum as usize) * (WASM_PAGE_SIZE as usize);
        let ok = slot.instantiate(initial_size, request.module_id, memory_index);
        if ok {
            proof {
                let s_len = old(self).stripes@.len() as int;
                let ghost stv = stripe_view;
                let ch = striped.0 as int;
                let ghost av = self.stripes@[stripe_index as int].allocator@;
                assert forall|l: int| 0 <= l < av.len() implies ((#[trigger] av[l]).affinity
                    == stv[l].affinity || av[l].affinity is None || (av[l].affinity matches Some(
                    a,
                ) && a.memory_index < old(self).memories_per_instance)) by {
                    if l != ch {
                        assert(av[l] == stv[l]);
                    }
                }
                assert forall|k: int|
                    0 <= k < self.image_slots@.len() && (
                    #[trigger] self.image_slots@[k]) is Some implies !self.stripes@[k
                    % s_len].allocator@[k / s_len].used || (old(self).image_slots@[k] is Some
                    && self.stripes@[k % s_len].allocator@[k / s_len].used == old(
                    self,
                ).stripes@[k % s_len].allocator@[k / s_len].used) by {
                    assert(k != allocation_index.0 as int);
                    lemma_allocation_index_split(k, s_len, self.max_total_memories as int);
                    if k % s_len == stripe_index as int && k / s_len == ch {
                        assert(k == allocation_index.0 as int);
                    }
                }
                lemma_wf_one_stripe_change(*old(self), *self, stripe_index as int);
            }
            Ok((allocation_index, slot))
        } else {
            // The slot could not take the image: free the stripe slot so
            // nothing leaks, and let the image cell drop.
            self.stripes[stripe_index].allocator.free(striped);
            proof {
                let s_len = old(self).stripes@.len() as int;
                let ghost stv = stripe_view;
                let ch = striped.0 as int;
                let ghost taken = stv.update(
                    ch,
                    crate::stripe_alloc::Slot { used: true, affinity, stamp: stv[ch].stamp },
                );
                let ghost av = self.stripes@[stripe_index as int].allocator@;
                crate::stripe_alloc::lemma_max_warm_nonneg(
                    &old(self).stripes@[stripe_index as int].allocator,
                );
                crate::stripe_alloc::lemma_after_free_pointwise(
                    taken,
                    ch,
                    old(self).stripes@[stripe_index as int].allocator.spec_clock(),
                    old(self).stripes@[stripe_index as int].allocator.spec_max_warm(),
                );
                assert forall|l: int| 0 <= l < av.len() implies ((#[trigger] av[l]).affinity
                    == stv[l].affinity || av[l].affinity is None || (av[l].affinity matches Some(
                    a,
                ) && a.memory_index < old(self).memories_per_instance)) by {
                    assert(av[l].affinity == taken[l].affinity || av[l].affinity is None);
                }
                assert forall|k: int|
                    0 <= k < self.image_slots@.len() && (
                    #[trigger] self.image_slots@[k]) is Some implies !self.stripes@[k
                    % s_len].allocator@[k / s_len].used || (old(self).image_slots@[k] is Some
                    && self.stripes@[k % s_len].allocator@[k / s_len].used == old(
                    self,
                ).stripes@[k % s_len].allocator@[k / s_len].used) by {
                    assert(k != allocation_index.0 as int);
                    lemma_allocation_index_split(k, s_len, self.max_total_memories as int);
                    if k % s_len == stripe_index as int {
                        if k / s_len == ch {
                            assert(k == allocation_index.0 as int);
                        } else {
                            assert(av[k / s_len].used == taken[k / s_len].used);
                            assert(taken[k / s_len] == stv[k / s_len]);
                        }
                    }
                }
                lemma_wf_one_stripe_change(*old(self), *self, stripe_index as int);
            }
            Err(PoolError::ImageInstantiationFailed)
        }
    }

    /// Deallocate a previously-allocated memory, handing its image cell
    /// back.
    ///
    /// The slot's stripe entry is freed — its `(module, memory index)`
    /// affinity retained for warm reuse, the oldest warm slot evicted
    /// where the budget overflows — and the image cell is stored back
    /// when it reports a successful, clean reset; otherwise it is dropped
    /// so its destructor can reclaim the range. Deallocation itself never
    /// fails.
    pub fn deallocate(&mut self, allocation_index: MemoryAllocationIndex, memory: M)
        requires
            old(self).wf(),
            allocation_index.0 < old(self).max_total_memories,
            old(self).stripes@[allocation_index.0 as int % old(self).stripes@.len() as int].allocator@[allocation_index.0 as int / old(self).stripes@.len() as int].used,
            old(self).image_slots@[allocation_index.0 as int] is None,
        ensures
            final(self).wf(),
            same_pool_frame(*old(self), *final(self)),
            ({
                let s = old(self).stripes@.len() as int;
                let st = allocation_index.0 as int % s;
                let striped = allocation_index.0 as int / s;
                let stripe_view = old(self).stripes@[st].allocator@;
                &&& final(self).stripes@[st].allocator@ == spec_after_free(
                    stripe_view,
                    striped,
                    old(self).stripes@[st].allocator.spec_clock(),
                    old(self).stripes@[st].allocator.spec_max_warm(),
                )
                &&& count_free(final(self).stripes@[st].allocator@) == count_free(stripe_view) + 1
                &&& forall|j: int|
                    0 <= j < s && j != st ==> final(self).stripes@[j] == old(self).stripes@[j]
                &&& forall|k: int|
                    0 <= k < old(self).image_slots@.len() && k != allocation_index.0
                        ==> final(self).image_slots@[k] == old(self).image_slots@[k]
            }),
    {
        let idx = allocation_index.index();
        let num_stripes = self.stripes.len();
        let stripe_index: usize = idx % num_stripes;
        let striped: usize = idx / num_stripes;
        proof {
            lemma_allocation_index_split(
                idx as int,
                num_stripes as int,
                self.max_total_memories as int,
            );
        }

        // Reset the image slot; on success store it back for the next
        // instance, otherwise drop it here.
        let mut slot = memory;
        let cleared = slot.clear_and_remain_ready(self.keep_resident);
        let keep = cleared && !slot.is_dirty();

        self.stripes[stripe_index].allocator.free(SlotId(striped as u32));
        if keep {
            self.return_memory_image_slot(allocation_index, slot);
        }
        proof {
            let s_len = old(self).stripes@.len() as int;
            let ghost stv = old(self).stripes@[stripe_index as int].allocator@;
            let ghost av = self.stripes@[stripe_index as int].allocator@;
            crate::stripe_alloc::lemma_max_warm_nonneg(
                &old(self).stripes@[stripe_index as int].allocator,
            );
            crate::stripe_alloc::lemma_after_free_pointwise(
                stv,
                striped as int,
                old(self).stripes@[stripe_index as int].allocator.spec_clock(),
                old(self).stripes@[stripe_index as int].allocator.spec_max_warm(),
            );
            assert forall|l: int| 0 <= l < av.len() implies ((#[trigger] av[l]).affinity
                == stv[l].affinity || av[l].affinity is None || (av[l].affinity matches Some(a)
                && a.memory_index < old(self).memories_per_instance)) by {}
            assert forall|k: int|
                0 <= k < self.image_slots@.len() && (
                #[trigger] self.image_slots@[k]) is Some implies !self.stripes@[k
                % s_len].allocator@[k / s_len].used || (old(self).image_slots@[k] is Some
                && self.stripes@[k % s_len].allocator@[k / s_len].used == old(self).stripes@[k
                % s_len].allocator@[k / s_len].used) by {
                lemma_allocation_index_split(k, s_len, self.max_total_memories as int);
                if k == allocation_index.0 as int {
                    assert(!av[striped as int].used);
                } else if k % s_len == stripe_index as int && k / s_len == striped as int {
                    assert(k == allocation_index.0 as int);
                }
            }
            lemma_wf_one_stripe_change(*old(self), *self, stripe_index as int);
        }
    }
}

/// The pool invariant survives a change confined to one stripe's
/// allocator and the image cells, provided the stripe kept its length and
/// key, every slot's affinity was kept, cleared, or set within the
/// memory-index bound, and every stored image cell sits on a slot that is
/// free now or was untouched and clean before.
proof fn lemma_wf_one_stripe_change<M: MemorySlot>(
    before: MemoryPool<M>,
    after: MemoryPool<M>,
    st: int,
)
    requires
        before.wf(),
        same_pool_frame(before, after),
        0 <= st < before.stripes@.len(),
        forall|j: int|
            0 <= j < before.stripes@.len() && j != st ==> after.stripes@[j] == before.stripes@[j],
        after.stripes@[st].pkey == before.stripes@[st].pkey,
        after.stripes@[st].allocator@.len() == before.stripes@[st].allocator@.len(),
        forall|l: int|
            0 <= l < after.stripes@[st].allocator@.len() ==> ((
            #[trigger] after.stripes@[st].allocator@[l]).affinity
                == before.stripes@[st].allocator@[l].affinity
                || after.stripes@[st].allocator@[l].affinity is None
                || (after.stripes@[st].allocator@[l].affinity matches Some(a)
                    && a.memory_index < before.memories_per_instance)),
        forall|k: int|
            0 <= k < after.image_slots@.len() && (#[trigger] after.image_slots@[k]) is Some
                ==> !after.stripes@[k % after.stripes@.len() as int].allocator@[k
                / after.stripes@.len() as int].used || (before.image_slots@[k] is Some
                && after.stripes@[k % after.stripes@.len() as int].allocator@[k
                / after.stripes@.len() as int].used == before.stripes@[k
                % before.stripes@.len() as int].allocator@[k
                / before.stripes@.len() as int].used),
    ensures
        after.wf(),
{
    let s = before.stripes@.len() as int;
    assert forall|k: int|
        0 <= k < after.max_total_memories && (
        #[trigger] after.image_slots@[k]) is Some implies !after.stripes@[k % s].allocator@[k
        / s].used by {
        lemma_allocation_index_split(k, s, after.max_total_memories as int);
        if !(!after.stripes@[k % s].allocator@[k / s].used) {
            assert(before.image_slots@[k] is Some);
            assert(!before.stripes@[k % s].allocator@[k / s].used);
        }
    }
}




/// Whether a slot's retained affinity names `module`.
pub open spec fn slot_affine_to_module(slot: crate::stripe_alloc::Slot, module: u64) -> bool {
    match slot.affinity {
        Some(a) => a.module == module,
        None => false,
    }
}

/// What a purge of `module` leaves alone: every slot that did not retain
/// the module's affinity keeps its `used` flag and stamp, keeps its
/// affinity unless the warm-budget eviction cleared it (possible only on
/// a free slot), and — when it was allocated — is wholly untouched; and
/// every image cell under such a slot is unchanged.
pub open spec fn spec_purge_frame<M: MemorySlot>(
    before: MemoryPool<M>,
    after: MemoryPool<M>,
    module: u64,
) -> bool {
    let s = before.stripes@.len() as int;
    &&& forall|i: int, j: int|
        0 <= i < s && 0 <= j < before.stripes@[i].allocator@.len() && !(
        #[trigger] slot_affine_to_module(before.stripes@[i].allocator@[j], module)) ==> {
            let o = before.stripes@[i].allocator@[j];
            let n = after.stripes@[i].allocator@[j];
            &&& n.used == o.used
            &&& n.stamp == o.stamp
            &&& (n.affinity == o.affinity || (n.affinity is None && !o.used))
            &&& (o.used ==> n == o)
        }
    &&& forall|k: int|
        0 <= k < before.image_slots@.len() && !slot_affine_to_module(
            before.stripes@[k % s].allocator@[k / s],
            module,
        ) ==> #[trigger] after.image_slots@[k] == before.image_slots@[k]
}

impl<M: MemorySlot> MemoryPool<M> {
    /// Whether no slot of any stripe retains an affinity of `module`.
    pub open spec fn spec_module_purged(&self, module: u64) -> bool {
        forall|i: int, j: int|
            0 <= i < self.stripes@.len() && 0 <= j < self.stripes@[i].allocator@.len()
                ==> ((#[trigger] self.stripes@[i].allocator@[j]).affinity matches Some(a)
                ==> a.module != module)
    }

    /// Purge everything related to `module`: for every stripe and every
    /// memory index the pool probes, drain the slots affine to
    /// `(module, memory index)` — dropping each one's image and freeing it
    /// again — until none retains the module's affinity. Affinity is keyed
    /// on the pair, and only the module id is known here, so every index
    /// up to the per-instance limit is probed.
    ///
    /// Afterwards no slot of any stripe retains an affinity of `module`,
    /// every stripe has exactly as many free slots as before, and
    /// everything else is left alone: slots that did not retain the
    /// module's affinity — allocated ones in particular — and their image
    /// cells are untouched (a free slot's affinity may still fall to the
    /// warm-budget eviction).
    pub fn purge_module(&mut self, module: u64)
        requires
            old(self).wf(),
        ensures
            final(self).wf(),
            same_pool_frame(*old(self), *final(self)),
            final(self).spec_module_purged(module),
            spec_purge_frame(*old(self), *final(self), module),
            forall|i: int|
                0 <= i < final(self).stripes@.len() ==> count_free(
                    (#[trigger] final(self).stripes@[i]).allocator@,
                ) == count_free(old(self).stripes@[i].allocator@),
    {
        let num_stripes = self.stripes.len();
        let mpi = self.memories_per_instance;
        let mut stripe_index: usize = 0;
        while stripe_index < num_stripes
            invariant
                stripe_index <= num_stripes,
                old(self).wf(),
                self.wf(),
                same_pool_frame(*old(self), *self),
                spec_purge_frame(*old(self), *self, module),
                num_stripes == self.stripes@.len(),
                mpi == self.memories_per_instance,
                forall|i: int, j: int|
                    0 <= i < stripe_index && 0 <= j < self.stripes@[i].allocator@.len() ==> ((
                    #[trigger] self.stripes@[i].allocator@[j]).affinity matches Some(a)
                        ==> a.module != module),
                forall|i: int|
                    0 <= i < num_stripes ==> count_free((#[trigger] self.stripes@[i]).allocator@)
                        == count_free(old(self).stripes@[i].allocator@),
            decreases num_stripes - stripe_index,
        {
            let mut mi: usize = 0;
            while mi < mpi
                invariant
                    mi <= mpi,
                    stripe_index < num_stripes,
                    old(self).wf(),
                    self.wf(),
                    same_pool_frame(*old(self), *self),
                    spec_purge_frame(*old(self), *self, module),
                    num_stripes == self.stripes@.len(),
                    mpi == self.memories_per_instance,
                    forall|i: int, j: int|
                        0 <= i < stripe_index && 0 <= j < self.stripes@[i].allocator@.len() ==> ((
                        #[trigger] self.stripes@[i].allocator@[j]).affinity matches Some(a)
                            ==> a.module != module),
                    forall|m2: u32|
                        m2 < mi ==> count_affine(
                            self.stripes@[stripe_index as int].allocator@,
                            (MemoryInModule { module, memory_index: m2 }),
                        ) == 0,
                    forall|i: int|
                        0 <= i < num_stripes ==> count_free(
                            (#[trigger] self.stripes@[i]).allocator@,
                        ) == count_free(old(self).stripes@[i].allocator@),
                decreases mpi - mi,
            {
                let ghost pair = MemoryInModule { module, memory_index: mi as u32 };
                loop
                    invariant
                        stripe_index < num_stripes,
                        mi < mpi,
                        old(self).wf(),
                        self.wf(),
                        same_pool_frame(*old(self), *self),
                        spec_purge_frame(*old(self), *self, module),
                        num_stripes == self.stripes@.len(),
                        mpi == self.memories_per_instance,
                        pair == (MemoryInModule { module, memory_index: mi as u32 }),
                        forall|i: int, j: int|
                            0 <= i < stripe_index && 0 <= j < self.stripes@[i].allocator@.len()
                                ==> ((#[trigger] self.stripes@[i].allocator@[j]).affinity matches Some(
                            a) ==> a.module != module),
                        forall|m2: u32|
                            m2 < mi ==> count_affine(
                                self.stripes@[stripe_index as int].allocator@,
                                (MemoryInModule { module, memory_index: m2 }),
                            ) == 0,
                        forall|i: int|
                            0 <= i < num_stripes ==> count_free(
                                (#[trigger] self.stripes@[i]).allocator@,
                            ) == count_free(old(self).stripes@[i].allocator@),
                    ensures
                        count_affine(self.stripes@[stripe_index as int].allocator@, pair) == 0,
                    decreases count_affine(
                        self.stripes@[stripe_index as int].allocator@,
                        pair,
                    ),
                {
                    proof {
                        crate::stripe_alloc::lemma_count_affine_bounds(
                            self.stripes@[stripe_index as int].allocator@,
                            pair,
                        );
                    }
                    let ghost snap: MemoryPool<M> = *self;
                    let got = self.stripes[stripe_index].allocator.alloc_affine_and_clear_affinity(
                        module,
                        mi as u32,
                    );
                    match got {
                        Some(id) => {
                            proof {
                                lemma_allocation_index_bijection(
                                    id.0 as int,
                                    stripe_index as int,
                                    num_stripes as int,
                                    self.max_total_memories as int,
                                );
                            }
                            let index = StripedAllocationIndex(id.0).as_unstriped_slot_index(
                                stripe_index,
                                num_stripes,
                            );
                            let ghost mid1: MemoryPool<M> = *self;
                            // Drop the image from the slot; keep the cell
                            // only when that worked and left it clean.
                            let mut slot = self.take_memory_image_slot(index);
                            let keep = slot.remove_image() && !slot.is_dirty();
                            if keep {
                                self.return_memory_image_slot(index, slot);
                            }
                            let ghost mid2: MemoryPool<M> = *self;
                            self.stripes[stripe_index].allocator.free(id);
                            proof {
                                lemma_purge_step(
                                    snap,
                                    mid1,
                                    mid2,
                                    *self,
                                    stripe_index as int,
                                    id.0 as int,
                                    pair,
                                    module,
                                    mi as int,
                                    index.0 as int,
                                );
                                assert forall|m2: u32| m2 < mi implies count_affine(
                                    self.stripes@[stripe_index as int].allocator@,
                                    (MemoryInModule { module, memory_index: m2 }),
                                ) == 0 by {
                                    let p2 = MemoryInModule { module, memory_index: m2 };
                                    crate::stripe_alloc::lemma_count_affine_bounds(
                                        self.stripes@[stripe_index as int].allocator@,
                                        p2,
                                    );
                                    assert(count_affine(
                                        snap.stripes@[stripe_index as int].allocator@,
                                        p2,
                                    ) == 0);
                                }
                                lemma_purge_frame_after_step(
                                    *old(self),
                                    snap,
                                    *self,
                                    module,
                                    stripe_index as int,
                                    id.0 as int,
                                    pair,
                                    index.0 as int,
                                );
                            }
                        },
                        None => {
                            proof {
                                lemma_purge_none_step(
                                    snap,
                                    *self,
                                    stripe_index as int,
                                    pair,
                                    module,
                                    mi as int,
                                );
                                assert forall|m2: u32| m2 < mi implies count_affine(
                                    self.stripes@[stripe_index as int].allocator@,
                                    (MemoryInModule { module, memory_index: m2 }),
                                ) == 0 by {
                                    let p2 = MemoryInModule { module, memory_index: m2 };
                                    crate::stripe_alloc::lemma_count_affine_bounds(
                                        self.stripes@[stripe_index as int].allocator@,
                                        p2,
                                    );
                                    assert(count_affine(
                                        snap.stripes@[stripe_index as int].allocator@,
                                        p2,
                                    ) == 0);
                                }
                                lemma_purge_frame_after_none(
                                    *old(self),
                                    snap,
                                    *self,
                                    module,
                                    stripe_index as int,
                                    pair,
                                );
                            }
                            break;
                        },
                    }
                }
                mi = mi + 1;
            }
            proof {
                assert forall|j: int|
                    0 <= j < self.stripes@[stripe_index as int].allocator@.len() implies ((
                #[trigger] self.stripes@[stripe_index as int].allocator@[j]).affinity matches Some(
                    a,
                ) ==> a.module != module) by {
                    match self.stripes@[stripe_index as int].allocator@[j].affinity {
                        Some(a) => {
                            if a.module == module {
                                assert(a.memory_index < mpi);
                                assert(count_affine(
                                    self.stripes@[stripe_index as int].allocator@,
                                    (MemoryInModule { module, memory_index: a.memory_index }),
                                ) == 0);
                                assert(a == (MemoryInModule {
                                    module,
                                    memory_index: a.memory_index,
                                }));
                                crate::stripe_alloc::lemma_count_affine_bounds(
                                    self.stripes@[stripe_index as int].allocator@,
                                    a,
                                );
                            }
                        },
                        None => {},
                    }
                }
            }
            stripe_index = stripe_index + 1;
        }
    }

    /// Ask every stored image cell to leave the mapping alone when it is
    /// dropped: the pool's one reservation is reclaimed as a whole when
    /// the pool itself goes away.
    pub fn no_clear_on_drop_all(&mut self)
        requires
            old(self).wf(),
        ensures
            final(self).wf(),
            same_pool_frame(*old(self), *final(self)),
            final(self).stripes@ == old(self).stripes@,
            final(self).image_slots@.len() == old(self).image_slots@.len(),
            forall|k: int|
                0 <= k < final(self).image_slots@.len() ==> ((
                #[trigger] final(self).image_slots@[k]) is Some <==> old(self).image_slots@[k]
                    is Some),
    {
        let mut k: usize = 0;
        while k < self.image_slots.len()
            invariant
                k <= self.image_slots@.len(),
                self.wf(),
                same_pool_frame(*old(self), *self),
                self.stripes@ == old(self).stripes@,
                self.image_slots@.len() == old(self).image_slots@.len(),
                forall|j: int|
                    0 <= j < self.image_slots@.len() ==> ((#[trigger] self.image_slots@[j]) is Some
                        <==> old(self).image_slots@[j] is Some),
            decreases self.image_slots@.len() - k,
        {
            let ghost before = *self;
            match &mut self.image_slots[k] {
                Some(slot) => {
                    slot.no_clear_on_drop();
                },
                None => {},
            }
            proof {
                assert forall|j: int|
                    0 <= j < self.image_slots@.len() implies ((
                #[trigger] self.image_slots@[j]) is Some <==> before.image_slots@[j] is Some) by {
                    if j != k {
                        assert(self.image_slots@[j] == before.image_slots@[j]);
                    }
                }
            }
            k = k + 1;
        }
    }
}

/// The purge frame survives one draining step: the step touches only the
/// drained slot — which retained the module's affinity — its image cell,
/// and, through the warm-budget eviction, free slots' affinities.
proof fn lemma_purge_frame_after_step<M: MemorySlot>(
    oldp: MemoryPool<M>,
    snap: MemoryPool<M>,
    after: MemoryPool<M>,
    module: u64,
    st: int,
    ch: int,
    pair: MemoryInModule,
    idx: int,
)
    requires
        oldp.wf(),
        snap.wf(),
        spec_purge_frame(oldp, snap, module),
        same_pool_frame(oldp, snap),
        same_pool_frame(snap, after),
        0 <= st < snap.stripes@.len(),
        0 <= ch < snap.stripes@[st].allocator@.len(),
        idx == ch * snap.stripes@.len() + st,
        pair.module == module,
        snap.stripes@[st].allocator@[ch].affinity == Some(pair),
        forall|i: int|
            0 <= i < oldp.stripes@.len() ==> (#[trigger] oldp.stripes@[i]).allocator@.len()
                == snap.stripes@[i].allocator@.len() && snap.stripes@[i].allocator@.len()
                == after.stripes@[i].allocator@.len(),
        forall|j: int|
            0 <= j < snap.stripes@.len() && j != st ==> after.stripes@[j] == snap.stripes@[j],
        forall|l: int|
            0 <= l < snap.stripes@[st].allocator@.len() && l != ch ==> {
                let o = snap.stripes@[st].allocator@[l];
                let n = #[trigger] after.stripes@[st].allocator@[l];
                &&& n.used == o.used
                &&& n.stamp == o.stamp
                &&& (n.affinity == o.affinity || (n.affinity is None && !o.used))
            },
        forall|k: int|
            0 <= k < snap.image_slots@.len() && k != idx ==> #[trigger] after.image_slots@[k]
                == snap.image_slots@[k],
    ensures
        spec_purge_frame(oldp, after, module),
{
    let s = oldp.stripes@.len() as int;
    assert forall|i: int, j: int|
        0 <= i < s && 0 <= j < oldp.stripes@[i].allocator@.len() && !(
    #[trigger] slot_affine_to_module(oldp.stripes@[i].allocator@[j], module)) implies {
        let o = oldp.stripes@[i].allocator@[j];
        let n = after.stripes@[i].allocator@[j];
        &&& n.used == o.used
        &&& n.stamp == o.stamp
        &&& (n.affinity == o.affinity || (n.affinity is None && !o.used))
        &&& (o.used ==> n == o)
    } by {
        let o = oldp.stripes@[i].allocator@[j];
        let m = snap.stripes@[i].allocator@[j];
        if i == st && j == ch {
            // The drained slot retained the module's affinity before the
            // purge began, so it is not under the frame.
            assert(m.affinity == Some(pair));
            assert(o.affinity == Some(pair));
            assert(slot_affine_to_module(o, module));
        }
    }
    assert forall|k: int|
        0 <= k < oldp.image_slots@.len() && !slot_affine_to_module(
            oldp.stripes@[k % s].allocator@[k / s],
            module,
        ) implies #[trigger] after.image_slots@[k] == oldp.image_slots@[k] by {
        if k == idx {
            lemma_allocation_index_bijection(ch, st, s, snap.max_total_memories as int);
            assert(k % s == st && k / s == ch);
            assert(snap.stripes@[st].allocator@[ch].affinity == Some(pair));
            assert(oldp.stripes@[st].allocator@[ch].affinity == Some(pair));
            assert(slot_affine_to_module(oldp.stripes@[k % s].allocator@[k / s], module));
        } else {
            assert(after.image_slots@[k] == snap.image_slots@[k]);
        }
    }
}

/// The purge frame survives a closing probe: stripping the remaining
/// holders of the pair's affinity touches only slots that retained the
/// module's affinity before the purge began.
proof fn lemma_purge_frame_after_none<M: MemorySlot>(
    oldp: MemoryPool<M>,
    snap: MemoryPool<M>,
    after: MemoryPool<M>,
    module: u64,
    st: int,
    pair: MemoryInModule,
)
    requires
        oldp.wf(),
        snap.wf(),
        spec_purge_frame(oldp, snap, module),
        same_pool_frame(oldp, snap),
        same_pool_frame(snap, after),
        0 <= st < snap.stripes@.len(),
        pair.module == module,
        forall|i: int|
            0 <= i < oldp.stripes@.len() ==> (#[trigger] oldp.stripes@[i]).allocator@.len()
                == snap.stripes@[i].allocator@.len() && snap.stripes@[i].allocator@.len()
                == after.stripes@[i].allocator@.len(),
        forall|j: int|
            0 <= j < snap.stripes@.len() && j != st ==> after.stripes@[j] == snap.stripes@[j],
        forall|l: int|
            0 <= l < snap.stripes@[st].allocator@.len() ==> #[trigger] after.stripes@[st].allocator@[l]
                == (if snap.stripes@[st].allocator@[l].affinity == Some(pair) {
                crate::stripe_alloc::Slot {
                    used: snap.stripes@[st].allocator@[l].used,
                    affinity: None,
                    stamp: snap.stripes@[st].allocator@[l].stamp,
                }
            } else {
                snap.stripes@[st].allocator@[l]
            }),
        after.image_slots@ == snap.image_slots@,
    ensures
        spec_purge_frame(oldp, after, module),
{
    let s = oldp.stripes@.len() as int;
    assert forall|i: int, j: int|
        0 <= i < s && 0 <= j < oldp.stripes@[i].allocator@.len() && !(
    #[trigger] slot_affine_to_module(oldp.stripes@[i].allocator@[j], module)) implies {
        let o = oldp.stripes@[i].allocator@[j];
        let n = after.stripes@[i].allocator@[j];
        &&& n.used == o.used
        &&& n.stamp == o.stamp
        &&& (n.affinity == o.affinity || (n.affinity is None && !o.used))
        &&& (o.used ==> n == o)
    } by {
        let o = oldp.stripes@[i].allocator@[j];
        let m = snap.stripes@[i].allocator@[j];
        if i == st && m.affinity == Some(pair) {
            // A slot still holding the pair was affine to the module all
            // along, so it is not under the frame.
            assert(o.affinity == Some(pair));
            assert(slot_affine_to_module(o, module));
        }
    }
}

/// One full purge probe — drain one slot: the stripe allocator hands out
/// the lowest free slot affine to `pair` (clearing it), the image cell
/// cycles out and possibly back in, and the slot is freed again. The
/// pool invariant survives, the pair's affine count drops, no new
/// affinities appear anywhere in the stripe, and the stripe's free count
/// is back where it started.
proof fn lemma_purge_step<M: MemorySlot>(
    snap: MemoryPool<M>,
    mid1: MemoryPool<M>,
    mid2: MemoryPool<M>,
    after: MemoryPool<M>,
    st: int,
    ch: int,
    pair: MemoryInModule,
    module: u64,
    mi: int,
    idx: int,
)
    requires
        snap.wf(),
        0 <= st < snap.stripes@.len(),
        0 <= ch < snap.stripes@[st].allocator@.len(),
        idx == ch * snap.stripes@.len() + st,
        0 <= idx < snap.max_total_memories,
        // the probe's effect on the stripe
        !snap.stripes@[st].allocator@[ch].used,
        snap.stripes@[st].allocator@[ch].affinity == Some(pair),
        mid1.stripes@[st].allocator@ == snap.stripes@[st].allocator@.update(
            ch,
            crate::stripe_alloc::Slot {
                used: true,
                affinity: None,
                stamp: snap.stripes@[st].allocator@[ch].stamp,
            },
        ),
        forall|j: int|
            0 <= j < snap.stripes@.len() && j != st ==> mid1.stripes@[j] == snap.stripes@[j],
        mid1.stripes@[st].pkey == snap.stripes@[st].pkey,
        mid1.image_slots@ == snap.image_slots@,
        same_pool_frame(snap, mid1),
        // the image cell cycle
        mid2.stripes@ == mid1.stripes@,
        same_pool_frame(mid1, mid2),
        mid2.image_slots@.len() == mid1.image_slots@.len(),
        forall|k: int|
            0 <= k < mid1.image_slots@.len() && k != idx ==> mid2.image_slots@[k]
                == mid1.image_slots@[k],
        // the final free
        after.stripes@[st].allocator@ == spec_after_free(
            mid2.stripes@[st].allocator@,
            ch,
            mid2.stripes@[st].allocator.spec_clock(),
            mid2.stripes@[st].allocator.spec_max_warm(),
        ),
        forall|j: int|
            0 <= j < mid2.stripes@.len() && j != st ==> after.stripes@[j] == mid2.stripes@[j],
        after.stripes@[st].pkey == mid2.stripes@[st].pkey,
        after.stripes@[st].allocator@.len() == mid2.stripes@[st].allocator@.len(),
        after.image_slots@ == mid2.image_slots@,
        same_pool_frame(mid2, after),
    ensures
        after.wf(),
        count_affine(after.stripes@[st].allocator@, pair) < count_affine(
            snap.stripes@[st].allocator@,
            pair,
        ),
        0 <= count_affine(after.stripes@[st].allocator@, pair),
        forall|p2: MemoryInModule|
            count_affine(after.stripes@[st].allocator@, p2) <= count_affine(
                snap.stripes@[st].allocator@,
                p2,
            ),
        count_free(after.stripes@[st].allocator@) == count_free(snap.stripes@[st].allocator@),
        forall|j: int|
            0 <= j < snap.stripes@.len() && j != st ==> after.stripes@[j] == snap.stripes@[j],
        forall|l: int|
            0 <= l < snap.stripes@[st].allocator@.len() && l != ch ==> {
                let o = snap.stripes@[st].allocator@[l];
                let n = #[trigger] after.stripes@[st].allocator@[l];
                &&& n.used == o.used
                &&& n.stamp == o.stamp
                &&& (n.affinity == o.affinity || (n.affinity is None && !o.used))
            },
        forall|k: int|
            0 <= k < snap.image_slots@.len() && k != idx ==> #[trigger] after.image_slots@[k]
                == snap.image_slots@[k],
        same_pool_frame(snap, after),
{
    let v0 = snap.stripes@[st].allocator@;
    let v1 = mid1.stripes@[st].allocator@;
    let v2 = after.stripes@[st].allocator@;
    assert forall|l: int| 0 <= l < v0.len() && l != ch implies {
        let o = v0[l];
        let n = #[trigger] v2[l];
        &&& n.used == o.used
        &&& n.stamp == o.stamp
        &&& (n.affinity == o.affinity || (n.affinity is None && !o.used))
    } by {
        crate::stripe_alloc::lemma_max_warm_nonneg(&mid2.stripes@[st].allocator);
        crate::stripe_alloc::lemma_after_free_pointwise(
            v1,
            ch,
            mid2.stripes@[st].allocator.spec_clock(),
            mid2.stripes@[st].allocator.spec_max_warm(),
        );
        assert(v1[l] == v0[l]);
    }
    crate::stripe_alloc::lemma_max_warm_nonneg(&mid2.stripes@[st].allocator);
    crate::stripe_alloc::lemma_after_free_pointwise(
        v1,
        ch,
        mid2.stripes@[st].allocator.spec_clock(),
        mid2.stripes@[st].allocator.spec_max_warm(),
    );
    // counts: taking the slot removed one `pair` affinity, freeing kept
    // or cleared the rest
    crate::stripe_alloc::lemma_count_affine_update(
        v0,
        pair,
        ch,
        crate::stripe_alloc::Slot { used: true, affinity: None, stamp: v0[ch].stamp },
    );
    assert forall|p2: MemoryInModule|
        count_affine(v2, p2) <= count_affine(snap.stripes@[st].allocator@, p2) by {
        crate::stripe_alloc::lemma_count_affine_update(
            v0,
            p2,
            ch,
            crate::stripe_alloc::Slot { used: true, affinity: None, stamp: v0[ch].stamp },
        );
        crate::stripe_alloc::lemma_count_affine_monotone(v1, v2, p2);
    }
    crate::stripe_alloc::lemma_count_affine_monotone(v1, v2, pair);
    crate::stripe_alloc::lemma_count_affine_bounds(v2, pair);
    // free counts: one taken, one freed
    crate::stripe_alloc::lemma_count_free_update(
        v0,
        ch,
        crate::stripe_alloc::Slot { used: true, affinity: None, stamp: v0[ch].stamp },
    );
    assert forall|l: int| 0 <= l < v1.len() implies ((#[trigger] v2[l]).used == (if l == ch {
        false
    } else {
        v1[l].used
    })) by {}
    crate::stripe_alloc::lemma_count_free_used_pointwise(v1, v2, ch);
    // well-formedness
    assert forall|k: int|
        0 <= k < after.max_total_memories && (
    #[trigger] after.image_slots@[k]) is Some implies !after.stripes@[k
        % after.stripes@.len() as int].allocator@[k / after.stripes@.len() as int].used by {
        let s = snap.stripes@.len() as int;
        assert(after.stripes@.len() == s);
        lemma_allocation_index_split(k, s, after.max_total_memories as int);
        assert(snap.stripes@[k % s].allocator@.len() == stripe_share(
            snap.max_total_memories as int,
            s,
            k % s,
        ));
        assert(k / s < snap.stripes@[k % s].allocator@.len());
        if k == idx {
            assert(snap.stripes@[st].allocator@.len() == stripe_share(
                snap.max_total_memories as int,
                s,
                st,
            ));
            lemma_allocation_index_bijection(ch, st, s, snap.max_total_memories as int);
            assert(k % s == st && k / s == ch);
            assert(!v2[ch].used);
        } else if k % s == st && k / s == ch {
            assert(k == idx);
        } else {
            assert(after.image_slots@[k] == mid2.image_slots@[k]);
            assert(mid2.image_slots@[k] == mid1.image_slots@[k]);
            assert(snap.image_slots@[k] is Some);
            assert(!snap.stripes@[k % s].allocator@[k / s].used);
            if k % s == st {
                assert(v1.len() == v0.len() && v2.len() == v1.len());
                assert(v2[k / s].used == v1[k / s].used);
                assert(v1[k / s] == v0[k / s]);
            } else {
                assert(after.stripes@[k % s] == snap.stripes@[k % s]);
            }
        }
    }
}

/// The closing purge probe: no slot affine to `pair` was free, so the
/// stripe allocator only stripped the remaining holders of that affinity.
/// The pool invariant survives, the pair is gone, other counts never
/// rise, and the free count is untouched.
proof fn lemma_purge_none_step<M: MemorySlot>(
    snap: MemoryPool<M>,
    after: MemoryPool<M>,
    st: int,
    pair: MemoryInModule,
    module: u64,
    mi: int,
)
    requires
        snap.wf(),
        0 <= st < snap.stripes@.len(),
        same_pool_frame(snap, after),
        after.image_slots@ == snap.image_slots@,
        forall|j: int|
            0 <= j < snap.stripes@.len() && j != st ==> after.stripes@[j] == snap.stripes@[j],
        after.stripes@[st].pkey == snap.stripes@[st].pkey,
        after.stripes@[st].allocator@.len() == snap.stripes@[st].allocator@.len(),
        count_affine(after.stripes@[st].allocator@, pair) == 0,
        count_free(after.stripes@[st].allocator@) == count_free(snap.stripes@[st].allocator@),
        forall|l: int|
            0 <= l < snap.stripes@[st].allocator@.len() ==> (#[trigger] after.stripes@[st].allocator@[l])
                == (if snap.stripes@[st].allocator@[l].affinity == Some(pair) {
                crate::stripe_alloc::Slot {
                    used: snap.stripes@[st].allocator@[l].used,
                    affinity: None,
                    stamp: snap.stripes@[st].allocator@[l].stamp,
                }
            } else {
                snap.stripes@[st].allocator@[l]
            }),
    ensures
        after.wf(),
        forall|p2: MemoryInModule|
            count_affine(after.stripes@[st].allocator@, p2) <= count_affine(
                snap.stripes@[st].allocator@,
                p2,
            ),
{
    let v0 = snap.stripes@[st].allocator@;
    let v2 = after.stripes@[st].allocator@;
    assert forall|p2: MemoryInModule| count_affine(v2, p2) <= count_affine(v0, p2) by {
        crate::stripe_alloc::lemma_count_affine_monotone(v0, v2, p2);
    }
    assert forall|k: int|
        0 <= k < after.max_total_memories && (
    #[trigger] after.image_slots@[k]) is Some implies !after.stripes@[k
        % after.stripes@.len() as int].allocator@[k / after.stripes@.len() as int].used by {
        let s = snap.stripes@.len() as int;
        lemma_allocation_index_split(k, s, after.max_total_memories as int);
        assert(snap.image_slots@[k] is Some);
        assert(!snap.stripes@[k % s].allocator@[k / s].used);
        assert(v2[k / s].used == v0[k / s].used || k % s != st);
    }
}

/// Module affinity at the pool level: when slot `striped` of the
/// request's stripe is free and still warm for the request's
/// `(module, memory index)` pair — and no lower slot of that stripe is —
/// the next allocation for that pair is exactly that slot, so it returns
/// pool index `striped × num_stripes + stripe`. In particular, a memory
/// freed for a module and not undercut or evicted since comes back to
/// the same module at the same index.
pub proof fn lemma_pool_affinity_reuse<M: MemorySlot>(
    p: MemoryPool<M>,
    request: AllocationRequest,
    memory_index: u32,
    striped: int,
)
    requires
        p.wf(),
        0 <= MemoryPool::<M>::spec_stripe_of(request) < p.stripes@.len(),
        MemoryPool::<M>::spec_affinity_of(request, memory_index) is Some,
        ({
            let v = p.stripes@[MemoryPool::<M>::spec_stripe_of(request)].allocator@;
            let aff = MemoryPool::<M>::spec_affinity_of(request, memory_index);
            &&& 0 <= striped < v.len()
            &&& !v[striped].used
            &&& v[striped].affinity == aff
            &&& forall|j: int|
                0 <= j < striped ==> !(!(#[trigger] v[j]).used && v[j].affinity == aff)
        }),
    ensures
        spec_alloc_choice(
            p.stripes@[MemoryPool::<M>::spec_stripe_of(request)].allocator@,
            MemoryPool::<M>::spec_affinity_of(request, memory_index),
        ) == striped,
{
    let st = MemoryPool::<M>::spec_stripe_of(request);
    let v = p.stripes@[st].allocator@;
    let aff = MemoryPool::<M>::spec_affinity_of(request, memory_index);
    match aff {
        Some(a) => {
            crate::stripe_alloc::lemma_affinity_reuse(v, a, striped);
        },
        None => {},
    }
}

} // verus!
