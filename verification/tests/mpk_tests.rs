//! Tests of the protection-key layer against a fake kernel and PKRU
//! register.

use mpk_pool::mpk::{
    is_supported, keys, MpkError, MpkRuntime, Pkey, PkeyRef, ProtectionMask, ALLOW_ACCESS,
    DISABLE_ACCESS,
};

struct FakeKernel {
    supported: bool,
    num_keys: u32,
    allocated: u32,
    pkru: u32,
    /// When set, `pkey_alloc` hands out this id instead of the next one.
    fixed_id: Option<u32>,
    mprotect_errno: Option<i32>,
    marks: Vec<(usize, usize, u32, u32)>,
}

impl FakeKernel {
    fn with_keys(num_keys: u32) -> FakeKernel {
        FakeKernel {
            supported: num_keys > 0,
            num_keys,
            allocated: 0,
            pkru: 0x5555_5554,
            fixed_id: None,
            mprotect_errno: None,
            marks: Vec::new(),
        }
    }
}

impl MpkRuntime for FakeKernel {
    fn cpu_supports_pkru(&self) -> bool {
        self.supported
    }
    fn pkey_alloc(&mut self) -> Option<u32> {
        if let Some(id) = self.fixed_id {
            return Some(id);
        }
        if self.allocated < self.num_keys {
            self.allocated += 1;
            Some(self.allocated)
        } else {
            None
        }
    }
    fn pkey_mprotect(&mut self, addr: usize, len: usize, prot: u32, key: u32) -> Result<(), i32> {
        if let Some(errno) = self.mprotect_errno {
            return Err(errno);
        }
        self.marks.push((addr, len, prot, key));
        Ok(())
    }
    fn pkru_read(&self) -> u32 {
        self.pkru
    }
    fn pkru_write(&mut self, value: u32) {
        self.pkru = value;
    }
}

#[test]
fn check_is_supported() {
    let sys = FakeKernel::with_keys(15);
    println!("is pku supported = {}", is_supported(&sys));
    assert!(is_supported(&sys));
    let none = FakeKernel::with_keys(0);
    assert!(!is_supported(&none));
}

#[test]
fn check_read() {
    // Opening every key writes the all-allow value; closing down to the
    // kernel key leaves only key 0's pair clear. Each write is what a
    // read then sees.
    let mut sys = FakeKernel::with_keys(15);
    let written = mpk_pool::mpk::allow(&mut sys, ProtectionMask::all());
    assert_eq!(written, ALLOW_ACCESS);
    assert_eq!(sys.pkru_read(), written);

    let written = mpk_pool::mpk::allow(&mut sys, ProtectionMask::zero());
    assert_eq!(written, DISABLE_ACCESS ^ 0b11);
    assert_eq!(sys.pkru_read(), written);
}

#[test]
fn check_roundtrip() {
    let mut sys = FakeKernel::with_keys(15);
    let before = sys.pkru_read();
    sys.pkru_write(0);
    assert_eq!(sys.pkru_read(), 0);
    sys.pkru_write(before);
    assert_eq!(sys.pkru_read(), before);
}

#[test]
fn allow_clears_exactly_the_masked_pairs() {
    let mut sys = FakeKernel::with_keys(15);
    // Keys 0 and 2 permitted: their bit pairs are clear, all others set.
    let written = mpk_pool::mpk::allow(&mut sys, ProtectionMask(0b101));
    for i in 0..16 {
        let pair = (written >> (2 * i)) & 3;
        if i == 0 || i == 2 {
            assert_eq!(pair, 0, "pair {i} should be clear");
        } else {
            assert_eq!(pair, 3, "pair {i} should be set");
        }
    }
}

#[test]
fn keys_are_discovered_in_stripe_order() {
    let mut sys = FakeKernel::with_keys(4);
    let discovered = keys(&mut sys);
    assert_eq!(discovered.len(), 4);
    for (i, key) in discovered.iter().enumerate() {
        assert_eq!(key.as_stripe(), i);
    }
}

#[test]
fn key_discovery_stops_at_fifteen() {
    // Even a kernel that would hand out more keys cannot exceed the
    // 15 user-space ids.
    let mut sys = FakeKernel::with_keys(40);
    let discovered = keys(&mut sys);
    assert_eq!(discovered.len(), 15);
}

#[test]
fn bad_key_ids_are_rejected() {
    let mut sys = FakeKernel::with_keys(1);
    sys.fixed_id = Some(0);
    assert_eq!(Pkey::new(&mut sys), Err(MpkError::InvalidKey));
    sys.fixed_id = Some(16);
    assert_eq!(Pkey::new(&mut sys), Err(MpkError::InvalidKey));
    sys.fixed_id = None;
    sys.num_keys = 0;
    assert_eq!(Pkey::new(&mut sys), Err(MpkError::AllocationFailed));
}

#[test]
fn mark_rejects_unaligned_regions() {
    let mut sys = FakeKernel::with_keys(2);
    let key = Pkey::new(&mut sys).unwrap();
    assert_eq!(key.mark(&mut sys, 1, 1), Err(MpkError::Unaligned));
    assert!(sys.marks.is_empty());
}

#[test]
fn mark_passes_the_kernel_error_along() {
    let mut sys = FakeKernel::with_keys(2);
    let key = Pkey::new(&mut sys).unwrap();
    sys.mprotect_errno = Some(22);
    assert_eq!(key.mark(&mut sys, 0, 4096), Err(MpkError::Kernel(22)));
}

#[test]
fn mark_requests_read_write_pages() {
    let mut sys = FakeKernel::with_keys(2);
    let key = Pkey::new(&mut sys).unwrap();
    key.mark(&mut sys, 8192, 4096).unwrap();
    assert_eq!(sys.marks, vec![(8192, 4096, 3, 1)]);
}

#[test]
fn activate_and_deactivate_write_the_register() {
    let mut sys = FakeKernel::with_keys(3);
    let _key1 = Pkey::new(&mut sys).unwrap();
    let key2 = Pkey::new(&mut sys).unwrap();
    assert_eq!(key2.as_stripe(), 1);

    let written = key2.activate(&mut sys);
    // Key 0 and key 2 are permitted, everything else denied.
    assert_eq!(written, DISABLE_ACCESS ^ (0b11 | (0b11 << 4)));
    assert_eq!(sys.pkru_read(), written);

    let written = key2.deactivate(&mut sys);
    assert_eq!(written, ALLOW_ACCESS);
    assert_eq!(sys.pkru_read(), ALLOW_ACCESS);
}

#[test]
fn pkey_ref_shares_a_key() {
    let mut sys = FakeKernel::with_keys(1);
    let key = Pkey::new(&mut sys).unwrap();
    let handle = PkeyRef::from(key);
    let copy = handle.clone();
    assert_eq!(handle.as_ref().as_stripe(), 0);
    assert_eq!(copy.as_ref().as_stripe(), 0);
}
