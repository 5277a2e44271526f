//! Memory protection keys (MPK).
//!
//! The pool stripes its slots with x86 protection keys so that a slot's
//! neighbours — marked with a different key — serve as its guard region.
//! This module holds the key abstraction and the PKRU permission-mask
//! arithmetic, all of it pure; the privileged pieces (the `pkey_*` system
//! calls, the `rdpkru`/`wrpkru` instructions and the CPUID probe) reach the
//! core only through the [`MpkRuntime`] capability that the host implements.

use vstd::prelude::*;

verus! {

/// PKRU value permitting reads and writes through every key.
pub const ALLOW_ACCESS: u32 = 0;

/// PKRU value denying access through every key.
pub const DISABLE_ACCESS: u32 = 0xFFFF_FFFF;

/// Protection flag requesting read access in a `pkey_mprotect` call.
pub const PROT_READ: u32 = 1;

/// Protection flag requesting write access in a `pkey_mprotect` call.
pub const PROT_WRITE: u32 = 2;

/// The privileged operations the MPK layer needs from its host: the Linux
/// `pkey_alloc` / `pkey_mprotect` system calls, the per-thread PKRU
/// register, and the CPUID feature probe. The core promises nothing about
/// their outcomes; every decision it makes holds for any implementation.
pub trait MpkRuntime {
    /// Whether the CPU reports protection-key support (CPUID leaf 7, ECX
    /// bit 3).
    fn cpu_supports_pkru(&self) -> bool;

    /// Ask the kernel for a fresh protection key; `None` when it has no
    /// more.
    fn pkey_alloc(&mut self) -> Option<u32>;

    /// Mark the page range starting at `addr` with `key`, requesting
    /// `prot` access; `Err` carries the kernel's errno.
    fn pkey_mprotect(&mut self, addr: usize, len: usize, prot: u32, key: u32) -> Result<(), i32>;

    /// Read the calling thread's PKRU register.
    fn pkru_read(&self) -> u32;

    /// Write the calling thread's PKRU register.
    fn pkru_write(&mut self, value: u32);
}

/// Why an MPK operation failed.
#[derive(Clone, Copy, Debug, PartialEq, Eq, Structural)]
pub enum MpkError {
    /// The kernel could not allocate a further protection key.
    AllocationFailed,
    /// The kernel returned a key id outside the expected 1 to 15 range.
    InvalidKey,
    /// A region to be marked does not start on a page boundary.
    Unaligned,
    /// A `pkey_mprotect` call failed with this errno.
    Kernel(i32),
}

/// A kernel-allocated protection key. Key 0 belongs to the kernel, so a
/// value of this type always wraps an id between 1 and 15; its *stripe
/// index* is the id less one.
#[derive(Clone, Copy, Debug, PartialEq)]
pub struct Pkey {
    id: u32,
}

impl Pkey {
    /// Key ids are kernel-issued: never 0 (the kernel's own key) and at
    /// most 15.
    #[verifier::type_invariant]
    spec fn id_in_range(self) -> bool {
        1 <= self.id <= 15
    }

    /// The raw key id, for specification purposes.
    pub closed spec fn spec_id(&self) -> u32 {
        self.id
    }

    /// Ask the kernel to allocate a key. Fails when the kernel has no key
    /// left, or hands back an id outside the 1 to 15 range that user space
    /// can ever receive.
    pub fn new<S: MpkRuntime>(sys: &mut S) -> (r: Result<Pkey, MpkError>)
        ensures
            r matches Ok(k) ==> 1 <= k.spec_id() <= 15,
    {
        match sys.pkey_alloc() {
            Some(id) => {
                if 1 <= id && id <= 15 {
                    Ok(Pkey { id })
                } else {
                    Err(MpkError::InvalidKey)
                }
            },
            None => Err(MpkError::AllocationFailed),
        }
    }

    /// The 0-based stripe index of this key: its id less one, because the
    /// kernel keeps key 0 for itself.
    pub fn as_stripe(&self) -> (r: usize)
        ensures
            r == self.spec_id() - 1,
            r < 15,
    {
        proof {
            use_type_invariant(self);
        }
        (self.id - 1) as usize
    }

    /// Mark the `len` bytes at `addr` as protected by this key, readable
    /// and writable while the key is permitted. Rejects a base address that
    /// is not page-aligned; otherwise the kernel decides, and its errno is
    /// passed along.
    pub fn mark<S: MpkRuntime>(&self, sys: &mut S, addr: usize, len: usize) -> (r: Result<
        (),
        MpkError,
    >)
        ensures
            addr % crate::layout::PAGE_SIZE != 0 <==> r == Err::<(), MpkError>(
                MpkError::Unaligned,
            ),
            addr % crate::layout::PAGE_SIZE == 0 ==> (r is Ok || r matches Err(MpkError::Kernel(
                _,
            ))),
    {
        if addr % crate::layout::PAGE_SIZE != 0 {
            return Err(MpkError::Unaligned);
        }
        match sys.pkey_mprotect(addr, len, PROT_READ | PROT_WRITE, self.id) {
            Ok(u) => Ok(u),
            Err(errno) => Err(MpkError::Kernel(errno)),
        }
    }

    /// Write a PKRU value that permits only this key (and the kernel's key
    /// 0); returns the value written. Accesses through any other key then
    /// fault.
    pub fn activate<S: MpkRuntime>(&self, sys: &mut S) -> (written: u32)
        ensures
            written == DISABLE_ACCESS ^ (0b11u32 | (0b11u32 << (2 * self.spec_id()))),
    {
        proof {
            use_type_invariant(self);
        }
        let allow_key_zero: u32 = 0b11;
        let allow_key_id: u32 = 0b11u32 << (2 * self.id);
        let written: u32 = DISABLE_ACCESS ^ (allow_key_zero | allow_key_id);
        sys.pkru_write(written);
        written
    }

    /// Write a PKRU value that permits every key again; returns the value
    /// written.
    pub fn deactivate<S: MpkRuntime>(&self, sys: &mut S) -> (written: u32)
        ensures
            written == ALLOW_ACCESS,
    {
        sys.pkru_write(ALLOW_ACCESS);
        ALLOW_ACCESS
    }
}

/// A cheap-to-clone handle on a [`Pkey`]. Keys are process-owned for the
/// process lifetime and immutable, so a plain copy of the value shares them
/// soundly between the pool and the stores using it.
#[derive(Clone, Copy, Debug)]
pub struct PkeyRef(pub Pkey);

impl PkeyRef {
    /// Borrow the underlying key.
    pub fn as_ref(&self) -> (r: &Pkey)
        ensures
            r == self.0,
    {
        &self.0
    }

    /// The underlying key's id, for specification purposes.
    pub open spec fn spec_id(&self) -> u32 {
        self.0.spec_id()
    }
}

impl From<Pkey> for PkeyRef {
    fn from(key: Pkey) -> (r: Self) {
        PkeyRef(key)
    }
}

impl vstd::std_specs::convert::FromSpecImpl<Pkey> for PkeyRef {
    open spec fn obeys_from_spec() -> bool {
        true
    }

    open spec fn from_spec(key: Pkey) -> Self {
        PkeyRef(key)
    }
}

/// Whether this machine supports MPK, as the host's CPUID probe reports it.
pub fn is_supported<S: MpkRuntime>(sys: &S) -> bool {
    sys.cpu_supports_pkru()
}

/// Ask the kernel for every protection key it will give this process, in
/// order. The kernel hands ids out sequentially starting at 1, so the key
/// at position `i` has stripe index `i`; discovery stops at the first
/// refusal, at the first id out of sequence, and at the 15-key ceiling.
///
/// The caller is expected to run this once per process and keep the result
/// alive: keys are deliberately never released.
pub fn keys<S: MpkRuntime>(sys: &mut S) -> (r: Vec<Pkey>)
    ensures
        r@.len() <= 15,
        forall|i: int| 0 <= i < r@.len() ==> #[trigger] r@[i].spec_id() == i + 1,
{
    let mut allocated: Vec<Pkey> = Vec::new();
    loop
        invariant
            allocated@.len() <= 15,
            forall|i: int| 0 <= i < allocated@.len() ==> #[trigger] allocated@[i].spec_id() == i
                + 1,
        decreases 15 - allocated@.len(),
    {
        if allocated.len() == 15 {
            return allocated;
        }
        match Pkey::new(sys) {
            Ok(pkey) => {
                if pkey.as_stripe() != allocated.len() {
                    // The kernel skipped an id: some other component holds
                    // keys, and stable stripe indices are impossible.
                    return allocated;
                }
                allocated.push(pkey);
            },
            Err(_) => {
                return allocated;
            },
        }
    }
}

/// A 16-bit set of protection keys the calling thread may touch. Bit `i`
/// stands for key `i`.
#[derive(Clone, Copy, Debug, PartialEq, Eq, Structural)]
pub struct ProtectionMask(pub u16);

impl ProtectionMask {
    /// The mask permitting every key.
    pub fn all() -> (r: ProtectionMask)
        ensures
            r.0 == 0xFFFFu16,
    {
        ProtectionMask(0xFFFF)
    }

    /// The mask permitting only the kernel's key 0.
    pub fn zero() -> (r: ProtectionMask)
        ensures
            r.0 == 1u16,
    {
        ProtectionMask(1)
    }
}

/// The pair of PKRU bits controlling key `i`: the access-disable and
/// write-disable bits together.
pub open spec fn pkru_pair(value: u32, i: u32) -> u32 {
    (value >> (2 * i)) & 3
}

/// Whether bit `i` of `mask` is set, i.e. key `i` is to be permitted.
pub open spec fn mask_bit(mask: u16, i: u32) -> bool {
    (mask >> (i as u16)) & 1 == 1
}

/// The PKRU value that permits exactly the keys in `mask`: both the
/// access-disable and write-disable bits are clear for each key whose mask
/// bit is set, and set for every other key.
pub open spec fn spec_pkru_allows(mask: u16, value: u32) -> bool {
    forall|i: u32|
        i < 16 ==> #[trigger] pkru_pair(value, i) == (if mask_bit(mask, i) {
            0u32
        } else {
            3u32
        })
}

/// Write the PKRU value that permits exactly the keys in `mask` on the
/// calling thread, and return it: starting from all-denied, each key named
/// by the mask has its access-disable and write-disable bits cleared.
pub fn allow<S: MpkRuntime>(sys: &mut S, mask: ProtectionMask) -> (written: u32)
    ensures
        spec_pkru_allows(mask.0, written),
{
    let mut value: u32 = DISABLE_ACCESS;
    proof {
        assert forall|j: u32| j < 16 implies #[trigger] pkru_pair(DISABLE_ACCESS, j) == 3u32 by {
            assert((0xFFFF_FFFFu32 >> (2 * j)) & 3 == 3) by (bit_vector)
                requires
                    j < 16u32,
            ;
        }
    }
    let mut i: u32 = 0;
    while i < 16
        invariant
            i <= 16,
            forall|j: u32|
                j < i ==> #[trigger] pkru_pair(value, j) == (if mask_bit(mask.0, j) {
                    0u32
                } else {
                    3u32
                }),
            forall|j: u32| i <= j < 16 ==> #[trigger] pkru_pair(value, j) == 3u32,
        decreases 16 - i,
    {
        let bit_set: bool = (mask.0 >> (i as u16)) & 1 == 1;
        let ghost prev: u32 = value;
        if bit_set {
            value = value & !(0b11u32 << (2 * i));
        }
        proof {
            assert(bit_set == mask_bit(mask.0, i));
            if bit_set {
                assert forall|j: u32| j < 16 implies #[trigger] pkru_pair(value, j) == (if j == i {
                    0u32
                } else {
                    pkru_pair(prev, j)
                }) by {
                    assert(((prev & !(0b11u32 << (2 * i))) >> (2 * j)) & 3 == (if j == i {
                        0u32
                    } else {
                        (prev >> (2 * j)) & 3
                    })) by (bit_vector)
                        requires
                            j < 16u32,
                            i < 16u32,
                    ;
                }
            }
        }
        i = i + 1;
    }
    sys.pkru_write(value);
    value
}

} // verus!
