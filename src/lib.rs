//! A minimal KVM-style virtual machine monitor: the verified core.
//!
//! The library holds the parts of the monitor that compute: the guest memory
//! buffer, the x86 boot-protocol loader, the initial vCPU register state and
//! the VM-exit dispatch rules. Talking to the hypervisor is left to callers.

pub mod boot_params;
pub mod cpu;
pub mod exit;
pub mod layout;
pub mod loader;
pub mod memory;
