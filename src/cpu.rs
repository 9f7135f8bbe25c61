//! The initial architectural state of the single vCPU: flat 32-bit protected
//! mode without paging, entered at the kernel's protected-mode entry point,
//! and the CPU-identification leaves the guest sees.
use vstd::prelude::*;

use crate::layout::{BOOT_PARAMS_ADDR, KERNEL_ADDR};

verus! {

/// A segment register as the hypervisor reports it.
#[derive(Debug, Clone, Copy, PartialEq, Eq, Structural)]
pub struct Segment {
    pub base: u64,
    pub limit: u32,
    pub selector: u16,
    pub type_: u8,
    pub present: u8,
    pub dpl: u8,
    pub db: u8,
    pub s: u8,
    pub l: u8,
    pub g: u8,
    pub avl: u8,
    pub unusable: u8,
}

/// A descriptor-table register (GDTR or IDTR).
#[derive(Debug, Clone, Copy, PartialEq, Eq, Structural)]
pub struct DescriptorTable {
    pub base: u64,
    pub limit: u16,
}

/// The segment, descriptor-table and control registers of a vCPU.
#[derive(Debug, Clone, Copy, PartialEq, Eq)]
pub struct SpecialRegisters {
    pub cs: Segment,
    pub ds: Segment,
    pub es: Segment,
    pub fs: Segment,
    pub gs: Segment,
    pub ss: Segment,
    pub tr: Segment,
    pub ldt: Segment,
    pub gdt: DescriptorTable,
    pub idt: DescriptorTable,
    pub cr0: u64,
    pub cr2: u64,
    pub cr3: u64,
    pub cr4: u64,
    pub cr8: u64,
    pub efer: u64,
    pub apic_base: u64,
    pub interrupt_bitmap: [u64; 4],
}

/// The general-purpose registers, instruction pointer and flags of a vCPU.
#[derive(Debug, Clone, Copy, PartialEq, Eq, Structural)]
pub struct Registers {
    pub rax: u64,
    pub rbx: u64,
    pub rcx: u64,
    pub rdx: u64,
    pub rsi: u64,
    pub rdi: u64,
    pub rsp: u64,
    pub rbp: u64,
    pub r8: u64,
    pub r9: u64,
    pub r10: u64,
    pub r11: u64,
    pub r12: u64,
    pub r13: u64,
    pub r14: u64,
    pub r15: u64,
    pub rip: u64,
    pub rflags: u64,
}

/// The protected-mode-enable bit of CR0.
pub const CR0_PE: u64 = 1;

/// RFLAGS with only the always-one reserved bit set: interrupts disabled.
pub const RFLAGS_RESERVED: u64 = 2;

/// `s` as a flat segment: base 0, a 4 GiB limit in page granularity.
pub open spec fn flat(s: Segment) -> Segment {
    Segment { base: 0, limit: 0xffff_ffff, g: 1, ..s }
}

/// `s` as a flat segment with 32-bit default operand size.
pub open spec fn flat32(s: Segment) -> Segment {
    Segment { db: 1, ..flat(s) }
}

/// `r` set up for flat protected mode: every data segment flat, code and
/// stack segments flat and 32-bit, protection enabled; nothing else changes.
pub open spec fn protected_mode(r: SpecialRegisters) -> SpecialRegisters {
    SpecialRegisters {
        cs: flat32(r.cs),
        ss: flat32(r.ss),
        ds: flat(r.ds),
        es: flat(r.es),
        fs: flat(r.fs),
        gs: flat(r.gs),
        cr0: r.cr0 | CR0_PE,
        ..r
    }
}

/// `r` at the kernel's 32-bit entry point: executing at `KERNEL_ADDR`, with
/// the boot parameters' address in RSI and interrupts disabled. RAX, RBX,
/// RCX and RDX get fixed values too; the other registers are kept.
pub open spec fn boot_entry(r: Registers) -> Registers {
    Registers {
        rip: KERNEL_ADDR as u64,
        rsi: BOOT_PARAMS_ADDR as u64,
        rflags: RFLAGS_RESERVED,
        rax: 0x4000_0000,
        rbx: 1,
        rcx: 0xffff,
        rdx: 0xefef,
        ..r
    }
}

/// Brings the segment and control registers to flat protected mode.
pub fn init_sregs(sregs: &mut SpecialRegisters)
    ensures
        *final(sregs) == protected_mode(*old(sregs)),
{
    sregs.cs.base = 0;
    sregs.cs.limit = u32::MAX;
    sregs.cs.g = 1;
    sregs.ds.base = 0;
    sregs.ds.limit = u32::MAX;
    sregs.ds.g = 1;
    sregs.fs.base = 0;
    sregs.fs.limit = u32::MAX;
    sregs.fs.g = 1;
    sregs.gs.base = 0;
    sregs.gs.limit = u32::MAX;
    sregs.gs.g = 1;
    sregs.es.base = 0;
    sregs.es.limit = u32::MAX;
    sregs.es.g = 1;
    sregs.ss.base = 0;
    sregs.ss.limit = u32::MAX;
    sregs.ss.g = 1;
    sregs.cs.db = 1;
    sregs.ss.db = 1;
    sregs.cr0 = sregs.cr0 | CR0_PE;
}

/// Points the registers at the kernel's protected-mode entry.
pub fn init_regs(regs: &mut Registers)
    ensures
        *final(regs) == boot_entry(*old(regs)),
{
    regs.rip = KERNEL_ADDR as u64;
    regs.rsi = BOOT_PARAMS_ADDR as u64;
    regs.rflags = RFLAGS_RESERVED;
    regs.rax = 0x4000_0000;
    regs.rbx = 1;
    regs.rcx = 0xffff;
    regs.rdx = 0xefef;
}

/// One CPU-identification leaf (and sub-leaf) as the guest will see it.
#[derive(Debug, Clone, Copy, PartialEq, Eq, Structural)]
pub struct CpuidEntry {
    pub function: u32,
    pub index: u32,
    pub flags: u32,
    pub eax: u32,
    pub ebx: u32,
    pub ecx: u32,
    pub edx: u32,
}

/// The leaf that carries a hypervisor's signature.
pub const HYPERVISOR_SIGNATURE_LEAF: u32 = 0x4000_0000;

/// The hypervisor features leaf, reported as the highest hypervisor leaf.
pub const HYPERVISOR_FEATURES_LEAF: u32 = 0x4000_0001;

/// The vendor signature `KVMKVMKVM` padded with NULs, in EBX, ECX, EDX order.
pub const SIGNATURE_EBX: u32 = 0x4b4d_564b;
pub const SIGNATURE_ECX: u32 = 0x564b_4d56;
pub const SIGNATURE_EDX: u32 = 0x4d;

/// `e` as this monitor reports it: the hypervisor-signature leaf names the
/// monitor and the features leaf; every other leaf is kept.
pub open spec fn advertised(e: CpuidEntry) -> CpuidEntry {
    if e.function == HYPERVISOR_SIGNATURE_LEAF {
        CpuidEntry {
            eax: HYPERVISOR_FEATURES_LEAF,
            ebx: SIGNATURE_EBX,
            ecx: SIGNATURE_ECX,
            edx: SIGNATURE_EDX,
            ..e
        }
    } else {
        e
    }
}

/// Rewrites the hypervisor-signature leaves of the host's supported leaves.
pub fn init_cpu_id(entries: &mut Vec<CpuidEntry>)
    ensures
        final(entries)@ == old(entries)@.map_values(|e: CpuidEntry| advertised(e)),
{
    let n = entries.len();
    let mut i: usize = 0;
    while i < n
        invariant
            n == entries@.len(),
            n == old(entries)@.len(),
            i <= n,
            forall|j: int| 0 <= j < i ==> #[trigger] entries@[j] == advertised(old(entries)@[j]),
            forall|j: int| i <= j < n ==> #[trigger] entries@[j] == old(entries)@[j],
        decreases n - i,
    {
        let e = entries[i];
        if e.function == HYPERVISOR_SIGNATURE_LEAF {
            entries.set(
                i,
                CpuidEntry {
                    eax: HYPERVISOR_FEATURES_LEAF,
                    ebx: SIGNATURE_EBX,
                    ecx: SIGNATURE_ECX,
                    edx: SIGNATURE_EDX,
                    ..e
                },
            );
        }
        i = i + 1;
    }
    assert(entries@ =~= old(entries)@.map_values(|e: CpuidEntry| advertised(e)));
}

/// Setting up the vCPU again before it first runs gives the same state: no
/// step depends on having run before.
pub proof fn lemma_init_idempotent(sregs: SpecialRegisters, regs: Registers, leaves: Seq<CpuidEntry>)
    ensures
        protected_mode(protected_mode(sregs)) == protected_mode(sregs),
        boot_entry(boot_entry(regs)) == boot_entry(regs),
        leaves.map_values(|e: CpuidEntry| advertised(e)).map_values(|e: CpuidEntry| advertised(e))
            == leaves.map_values(|e: CpuidEntry| advertised(e)),
{
    let c = sregs.cr0;
    assert((c | 1u64) | 1u64 == c | 1u64) by (bit_vector);
    assert(leaves.map_values(|e: CpuidEntry| advertised(e)).map_values(|e: CpuidEntry| advertised(e))
        =~= leaves.map_values(|e: CpuidEntry| advertised(e)));
}

} // verus!
