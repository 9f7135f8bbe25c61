//! Fixed addresses and sizes of the guest's physical memory layout.
use vstd::prelude::*;

verus! {

/// Size of the guest's physical memory region (1 GiB).
pub const GUEST_MEMORY_SIZE: usize = 0x4000_0000;

/// Guest-physical address of the boot-parameters block.
pub const BOOT_PARAMS_ADDR: usize = 0x1_0000;

/// Guest-physical address of the kernel command line.
pub const CMDLINE_ADDR: usize = 0x2_0000;

/// Guest-physical address where the protected-mode kernel payload is loaded.
pub const KERNEL_ADDR: usize = 0x10_0000;

/// Smallest image size accepted as a plausible kernel (10 KiB).
pub const MIN_IMAGE_SIZE: usize = 10 * 1024;

/// Guest-physical address of the task-state segment pages reserved for the hypervisor.
pub const TSS_ADDR: u64 = 0xffff_d000;

/// Guest-physical address of the identity-map page reserved for the hypervisor.
pub const IDENTITY_MAP_ADDR: u64 = 0xffff_c000;

/// I/O port of the first serial port's transmit register.
pub const SERIAL_PORT: u16 = 0x3f8;

} // verus!
