//! A minimal virtual-machine monitor core: it models the lifecycle of one
//! hardware-virtualized guest — provisioning a flat guest memory region,
//! initializing one virtual CPU, and dispatching on the reasons the CPU
//! stops executing — and proves the rules each step must obey.
//!
//! The host kernel's virtualization device is driven from outside the
//! library; everything that decides or computes (the registration request,
//! the memory image, the register state pushed to the CPU, the decoding of
//! the shared run page, and the dispatch decision) is verified here.

use vstd::prelude::*;

pub mod dispatch;
pub mod exits;
pub mod memory;
pub mod regs;

verus! {

/// Size in bytes of the guest-physical memory region: 256 KiB.
pub const MEM_SIZE: usize = 0x40000;

/// Fixed guest-physical address the initial stack pointer is set to,
/// chosen to sit above the loaded code within the memory region.
pub const STACK_BASE: u64 = 0x200000;

/// Initial flags-register value: only the architecturally mandated
/// always-set reserved bit (bit 1).
pub const INITIAL_RFLAGS: u64 = 0x2;

} // verus!
