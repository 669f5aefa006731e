//! Architectural register state of the virtual CPU, modelled as plain values.
//!
//! The host kernel owns the authoritative CPU state between resumes; these
//! types mirror the fixed-layout records it hands out, so that the
//! initialization rules (entry point, stack base, mandatory flag bits, flat
//! code segment) can be stated and proved. The host-facing conversion to the
//! kernel's own record layout lives outside the library.

use vstd::prelude::*;

verus! {

use crate::INITIAL_RFLAGS;
use crate::STACK_BASE;

/// General-purpose register snapshot of one virtual CPU, including the
/// instruction pointer, stack pointer and flags register.
pub struct GeneralRegisters {
    pub rax: u64,
    pub rbx: u64,
    pub rcx: u64,
    pub rdx: u64,
    pub rsi: u64,
    pub rdi: u64,
    pub rsp: u64,
    pub rbp: u64,
    pub r8: u64,
    pub r9: u64,
    pub r10: u64,
    pub r11: u64,
    pub r12: u64,
    pub r13: u64,
    pub r14: u64,
    pub r15: u64,
    pub rip: u64,
    pub rflags: u64,
}

/// One segment descriptor of the special-register record.
pub struct Segment {
    pub base: u64,
    pub limit: u32,
    pub selector: u16,
    pub type_: u8,
    pub present: u8,
    pub dpl: u8,
    pub db: u8,
    pub s: u8,
    pub l: u8,
    pub g: u8,
    pub avl: u8,
    pub unusable: u8,
}

/// Prepares a freshly fetched general-register snapshot for first execution:
/// the instruction pointer is pointed at the guest entry offset, the stack
/// pointer at the fixed stack base above the loaded code, and the flags
/// register is reduced to the architecturally mandated reserved bit.
/// Every other register keeps the value the host kernel reported, whatever
/// it was: fetched registers are not assumed to be zero.
pub fn apply_initial_register_state(regs: &mut GeneralRegisters, entry: u64)
    ensures
        final(regs).rip == entry,
        final(regs).rsp == STACK_BASE,
        final(regs).rflags == INITIAL_RFLAGS,
        final(regs).rax == old(regs).rax,
        final(regs).rbx == old(regs).rbx,
        final(regs).rcx == old(regs).rcx,
        final(regs).rdx == old(regs).rdx,
        final(regs).rsi == old(regs).rsi,
        final(regs).rdi == old(regs).rdi,
        final(regs).rbp == old(regs).rbp,
        final(regs).r8 == old(regs).r8,
        final(regs).r9 == old(regs).r9,
        final(regs).r10 == old(regs).r10,
        final(regs).r11 == old(regs).r11,
        final(regs).r12 == old(regs).r12,
        final(regs).r13 == old(regs).r13,
        final(regs).r14 == old(regs).r14,
        final(regs).r15 == old(regs).r15,
{
    regs.rip = entry;
    regs.rsp = STACK_BASE;
    regs.rflags = INITIAL_RFLAGS;
}

/// Collapses segmentation for the code segment: base and selector both
/// become zero, so that logical addresses coincide with guest-physical
/// offsets, as the flat-loaded guest program expects. Every other descriptor
/// field keeps the value the host kernel reported.
pub fn apply_flat_code_segment(cs: &mut Segment)
    ensures
        final(cs).base == 0,
        final(cs).selector == 0,
        final(cs).limit == old(cs).limit,
        final(cs).type_ == old(cs).type_,
        final(cs).present == old(cs).present,
        final(cs).dpl == old(cs).dpl,
        final(cs).db == old(cs).db,
        final(cs).s == old(cs).s,
        final(cs).l == old(cs).l,
        final(cs).g == old(cs).g,
        final(cs).avl == old(cs).avl,
        final(cs).unusable == old(cs).unusable,
{
    cs.base = 0;
    cs.selector = 0;
}

} // verus!
