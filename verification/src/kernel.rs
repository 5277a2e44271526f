//! The parallel-kernel description handed to a compute device: the
//! binary-encoded WebAssembly module to run, the engine configuration it
//! must be compiled under, and the shared memory all its threads import.
//!
//! The engine and the shared memory are carried as plain descriptors; the
//! host resolves them to its real objects when it compiles and runs the
//! kernel.

use vstd::prelude::*;

verus! {

/// A descriptor of the engine a kernel must be compiled with, so the
/// kernel runs under the same configuration as the code that spawned it.
#[derive(Clone, Copy, Debug, PartialEq, Eq, Structural)]
pub struct Engine {
    /// The host's identifier for the engine instance.
    pub id: u64,
}

/// A descriptor of a shared linear memory: its size bounds in
/// WebAssembly pages.
#[derive(Clone, Copy, Debug, PartialEq, Eq, Structural)]
pub struct SharedMemory {
    /// The minimum size, in pages.
    pub min_pages: u32,
    /// The maximum size, in pages.
    pub max_pages: u32,
}

/// The kind of compute device a kernel can run on.
#[derive(Clone, Copy, Debug, PartialEq, Eq, Structural)]
pub enum DeviceKind {
    /// A general-purpose processor.
    Cpu,
    /// A discrete graphics processor.
    DiscreteGpu,
}

/// A binary-encoded WebAssembly module containing the function to be run
/// in parallel, with the engine it must be compiled under and the memory
/// its threads share.
#[derive(Clone, Debug)]
pub struct Kernel {
    module: Vec<u8>,
    engine: Engine,
    memory: SharedMemory,
}

impl Kernel {
    /// The export name of the kernel entry function.
    pub const NAME: &'static str = "kernel";

    /// Package a kernel from its module bytes, engine and shared memory.
    pub fn new(module: Vec<u8>, engine: Engine, memory: SharedMemory) -> (r: Kernel)
        ensures
            r.spec_module() == module@,
            r.spec_engine() == engine,
            r.spec_memory() == memory,
    {
        Kernel { module, engine, memory }
    }

    /// The module bytes, for specification purposes.
    pub closed spec fn spec_module(&self) -> Seq<u8> {
        self.module@
    }

    /// The engine descriptor, for specification purposes.
    pub closed spec fn spec_engine(&self) -> Engine {
        self.engine
    }

    /// The memory descriptor, for specification purposes.
    pub closed spec fn spec_memory(&self) -> SharedMemory {
        self.memory
    }

    /// The binary-encoded module to compile.
    pub fn module(&self) -> (r: &Vec<u8>)
        ensures
            r@ == self.spec_module(),
    {
        &self.module
    }

    /// The engine the kernel must be compiled under.
    pub fn engine(&self) -> (r: &Engine)
        ensures
            *r == self.spec_engine(),
    {
        &self.engine
    }

    /// The shared memory the kernel's threads import.
    pub fn memory(&self) -> (r: &SharedMemory)
        ensures
            *r == self.spec_memory(),
    {
        &self.memory
    }
}

/// The single-threaded processor device: it runs every kernel iteration
/// in order on the calling thread.
#[derive(Clone, Copy, Debug)]
pub struct CpuSingleThreadedDevice;

impl CpuSingleThreadedDevice {
    /// The device, ready to run kernels.
    pub fn new() -> (r: CpuSingleThreadedDevice)
        ensures
            r == CpuSingleThreadedDevice,
    {
        CpuSingleThreadedDevice
    }

    /// The device's kind.
    pub fn kind(&self) -> (r: DeviceKind)
        ensures
            r == DeviceKind::Cpu,
    {
        DeviceKind::Cpu
    }

    /// The device's descriptive name.
    pub fn name(&self) -> (r: String)
        ensures
            r@ == "single-threaded implementation"@,
    {
        "single-threaded implementation".to_string()
    }
}

} // verus!
