//! A pooling allocator core for WebAssembly linear memories, striped with
//! x86 memory protection keys (MPK), together with the small verified
//! host-side companions that live beside it.
//!
//! The heart of the crate is the allocator core:
//!
//! - [`layout`]: the slab-layout calculator that decides slot size, stripe
//!   count and guard sizes from a set of constraints;
//! - [`stripe_alloc`]: the per-stripe free-slot allocator with module/memory
//!   affinity and a warm-slot budget;
//! - [`mpk`]: protection keys, the per-thread permission mask and the PKRU
//!   value computation, over a host-supplied kernel/CPU capability;
//! - [`pool`]: the memory pool itself: striping, allocation, deallocation
//!   and module purging.
//!
//! Kernel calls, CPU register writes and the actual memory mapping are host
//! concerns: the core receives them through small traits and hands plain
//! values back, so every decision the pool makes is verified.
//!
//! Around the core stand the host layer's data modules: [`reg`],
//! [`operand`] and [`inst`] with the assembler's register operands and
//! instruction definitions, [`nn`] with the neural-network handle table,
//! [`file`] with the WASI file metadata types, and [`kernel`] with the
//! parallel-kernel description.

pub mod file;
pub mod inst;
pub mod kernel;
pub mod layout;
pub mod mpk;
pub mod nn;
pub mod operand;
pub mod pool;
pub mod reg;
pub mod stripe_alloc;
