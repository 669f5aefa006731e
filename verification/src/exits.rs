//! Decoding of the shared run page.
//!
//! After every resume the host kernel writes, into a fixed-layout control
//! page shared with the monitor, an integer exit-reason code followed by a
//! tagged-union payload whose active member depends on the reason. The raw
//! reinterpretation of that page happens here, in one decoding function over
//! plain bytes at the stable offsets of the record layout: the exit-reason
//! word at offset 8, and the union payload at offset 32.

use vstd::prelude::*;

verus! {

/// The least run-page length at which the exit-reason word and every
/// payload this monitor reads are in bounds.
pub const RUN_PAGE_MIN: usize = 48;

/// Byte offset of the exit-reason word within the run page.
pub const EXIT_REASON_OFFSET: usize = 8;

/// Byte offset of the exit payload union within the run page.
pub const PAYLOAD_OFFSET: usize = 32;

/// Byte offset of the port-I/O payload's data-offset field within the run
/// page: the union member holds direction, size, port and count before it.
pub const IO_DATA_OFFSET_OFFSET: usize = 40;

/// Why the virtual CPU stopped executing, decoded from the run page.
#[derive(Clone, Copy, Debug, PartialEq, Eq, Structural)]
pub enum ExitReason {
    /// The guest executed a halt instruction.
    Halt,
    /// The guest performed a port-I/O output; `data_offset` locates the
    /// output bytes within the run page itself.
    Io { data_offset: u64 },
    /// The hardware refused entry into guest mode, for the given reason code.
    FailEntry { reason: u64 },
    /// The host virtualization layer hit an internal inconsistency.
    InternalError { suberror: u32 },
    /// The guest triggered a shutdown condition, such as a triple fault.
    Shutdown,
    /// A reason this monitor does not recognize; the raw code is kept.
    Unknown { raw: u32 },
}

/// The little-endian 32-bit word at offset `i` of `s`.
pub open spec fn le_u32_at(s: Seq<u8>, i: int) -> u32
    recommends
        0 <= i,
        i + 4 <= s.len(),
{
    (s[i] as u32) | (s[i + 1] as u32) << 8 | (s[i + 2] as u32) << 16 | (s[i + 3] as u32) << 24
}

/// The little-endian 64-bit word at offset `i` of `s`.
pub open spec fn le_u64_at(s: Seq<u8>, i: int) -> u64
    recommends
        0 <= i,
        i + 8 <= s.len(),
{
    (s[i] as u64) | (s[i + 1] as u64) << 8 | (s[i + 2] as u64) << 16 | (s[i + 3] as u64) << 24
        | (s[i + 4] as u64) << 32 | (s[i + 5] as u64) << 40 | (s[i + 6] as u64) << 48
        | (s[i + 7] as u64) << 56
}

/// Reads the little-endian 32-bit word at offset `i` of `page`.
pub fn read_le_u32(page: &Vec<u8>, i: usize) -> (r: u32)
    requires
        i + 4 <= page@.len(),
    ensures
        r == le_u32_at(page@, i as int),
{
    let n = page.len();
    assert(i + 4 <= n);
    (page[i] as u32) | (page[i + 1] as u32) << 8 | (page[i + 2] as u32) << 16
        | (page[i + 3] as u32) << 24
}

/// Reads the little-endian 64-bit word at offset `i` of `page`.
pub fn read_le_u64(page: &Vec<u8>, i: usize) -> (r: u64)
    requires
        i + 8 <= page@.len(),
    ensures
        r == le_u64_at(page@, i as int),
{
    let n = page.len();
    assert(i + 8 <= n);
    (page[i] as u64) | (page[i + 1] as u64) << 8 | (page[i + 2] as u64) << 16
        | (page[i + 3] as u64) << 24 | (page[i + 4] as u64) << 32 | (page[i + 5] as u64) << 40
        | (page[i + 6] as u64) << 48 | (page[i + 7] as u64) << 56
}

/// Relies on kvm_bindings::KVM_EXIT_HLT: the exit-reason code reported when
/// the guest executed a halt instruction.
#[verifier::external_body]
fn exit_code_halt() -> (r: u32)
    ensures
        r == 5,
{
    kvm_bindings::KVM_EXIT_HLT
}

/// Relies on kvm_bindings::KVM_EXIT_IO: the exit-reason code reported when
/// the guest performed port I/O.
#[verifier::external_body]
fn exit_code_io() -> (r: u32)
    ensures
        r == 2,
{
    kvm_bindings::KVM_EXIT_IO
}

/// Relies on kvm_bindings::KVM_EXIT_FAIL_ENTRY: the exit-reason code
/// reported when the hardware refused entry into guest mode.
#[verifier::external_body]
fn exit_code_fail_entry() -> (r: u32)
    ensures
        r == 9,
{
    kvm_bindings::KVM_EXIT_FAIL_ENTRY
}

/// Relies on kvm_bindings::KVM_EXIT_INTERNAL_ERROR: the exit-reason code
/// reported when the host virtualization layer hit an internal inconsistency.
#[verifier::external_body]
fn exit_code_internal_error() -> (r: u32)
    ensures
        r == 17,
{
    kvm_bindings::KVM_EXIT_INTERNAL_ERROR
}

/// Relies on kvm_bindings::KVM_EXIT_SHUTDOWN: the exit-reason code reported
/// when the guest triggered a shutdown condition.
#[verifier::external_body]
fn exit_code_shutdown() -> (r: u32)
    ensures
        r == 8,
{
    kvm_bindings::KVM_EXIT_SHUTDOWN
}

/// What a run page of the given bytes says about why execution stopped:
/// `None` for a page too short to hold the record, otherwise the decoded
/// exit reason with its payload.
pub open spec fn spec_decode(s: Seq<u8>) -> Option<ExitReason> {
    if s.len() < RUN_PAGE_MIN {
        None
    } else {
        let code = le_u32_at(s, EXIT_REASON_OFFSET as int);
        if code == 5 {
            Some(ExitReason::Halt)
        } else if code == 2 {
            Some(ExitReason::Io { data_offset: le_u64_at(s, IO_DATA_OFFSET_OFFSET as int) })
        } else if code == 9 {
            Some(ExitReason::FailEntry { reason: le_u64_at(s, PAYLOAD_OFFSET as int) })
        } else if code == 17 {
            Some(ExitReason::InternalError { suberror: le_u32_at(s, PAYLOAD_OFFSET as int) })
        } else if code == 8 {
            Some(ExitReason::Shutdown)
        } else {
            Some(ExitReason::Unknown { raw: code })
        }
    }
}

/// Decodes the run page: the exit-reason word selects which payload member
/// is active, and that member alone is read.
pub fn decode_run(page: &Vec<u8>) -> (r: Option<ExitReason>)
    ensures
        r == spec_decode(page@),
{
    if page.len() < RUN_PAGE_MIN {
        return None;
    }
    let code = read_le_u32(page, EXIT_REASON_OFFSET);
    if code == exit_code_halt() {
        Some(ExitReason::Halt)
    } else if code == exit_code_io() {
        Some(ExitReason::Io { data_offset: read_le_u64(page, IO_DATA_OFFSET_OFFSET) })
    } else if code == exit_code_fail_entry() {
        Some(ExitReason::FailEntry { reason: read_le_u64(page, PAYLOAD_OFFSET) })
    } else if code == exit_code_internal_error() {
        Some(ExitReason::InternalError { suberror: read_le_u32(page, PAYLOAD_OFFSET) })
    } else if code == exit_code_shutdown() {
        Some(ExitReason::Shutdown)
    } else {
        Some(ExitReason::Unknown { raw: code })
    }
}

} // verus!
