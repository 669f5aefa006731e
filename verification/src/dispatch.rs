//! The dispatch decision: what the monitor does with a decoded exit reason.
//!
//! Every exit reason this monitor knows ends the dispatch loop: a halt ends
//! it with status 0, a port-I/O output ends it after the guest's bytes are
//! emitted, and every failure or unrecognized reason ends it with status 1
//! and a diagnostic line. Diagnostics that carry a payload value render it
//! in decimal, and the rendering is proved to round-trip, so the line really
//! does carry the raw value.

use vstd::prelude::*;

verus! {

use vstd::slice::slice_to_vec;
use vstd::string::StringSliceAdditionalSpecFns;

use crate::exits::ExitReason;
use crate::exits::EXIT_REASON_OFFSET;
use crate::exits::IO_DATA_OFFSET_OFFSET;
use crate::exits::RUN_PAGE_MIN;
use crate::exits::decode_run;
use crate::exits::le_u32_at;
use crate::exits::le_u64_at;
use crate::exits::spec_decode;

/// The decimal rendering of `n`: most significant digit first, no sign,
/// no leading zeroes (a single `'0'` for zero).
pub open spec fn spec_decimal(n: nat) -> Seq<u8>
    decreases n,
{
    if n < 10 {
        seq![(48 + n) as u8]
    } else {
        spec_decimal(n / 10).push((48 + n % 10) as u8)
    }
}

/// The number a sequence of decimal digit bytes denotes; reading anything
/// that is not a digit rendering gives some unrelated value.
pub open spec fn spec_parse_decimal(s: Seq<u8>) -> int
    decreases s.len(),
{
    if s.len() == 0 {
        0
    } else {
        spec_parse_decimal(s.drop_last()) * 10 + (s.last() as int - 48)
    }
}

/// Law: parsing the decimal digits of `n` yields `n` again, so a
/// diagnostic that ends in `spec_decimal(n)` determines `n` exactly.
pub proof fn lemma_decimal_round_trip(n: nat)
    ensures
        spec_parse_decimal(spec_decimal(n)) == n,
    decreases n,
{
    if n < 10 {
        assert(spec_parse_decimal(Seq::<u8>::empty()) == 0);
        assert(spec_decimal(n).drop_last() =~= Seq::<u8>::empty());
        assert(spec_decimal(n).last() == (48 + n) as u8);
    } else {
        lemma_decimal_round_trip(n / 10);
        let s = spec_decimal(n / 10);
        let x = (48 + n % 10) as u8;
        assert(spec_decimal(n) == s.push(x));
        assert(s.push(x).drop_last() =~= s);
        assert(s.push(x).last() == x);
        assert(x as int - 48 == n % 10);
        assert(spec_parse_decimal(spec_decimal(n)) == (n / 10) * 10 + (n % 10));
        vstd::arithmetic::div_mod::lemma_fundamental_div_mod(n as int, 10);
    }
}

/// Renders `n` in decimal, most significant digit first.
pub fn decimal_digits(n: u64) -> (r: Vec<u8>)
    ensures
        r@ == spec_decimal(n as nat),
    decreases n,
{
    if n < 10 {
        let mut v: Vec<u8> = Vec::new();
        v.push(48 + n as u8);
        proof {
            assert(v@ =~= spec_decimal(n as nat));
        }
        v
    } else {
        let mut v = decimal_digits(n / 10);
        v.push(48 + (n % 10) as u8);
        v
    }
}

/// Diagnostic for a halt exit.
pub open spec fn halt_message() -> Seq<u8> {
    "KVM_EXIT_HLT".spec_bytes()
}

/// Diagnostic for a shutdown exit.
pub open spec fn shutdown_message() -> Seq<u8> {
    "KVM_EXIT_SHUTDOWN".spec_bytes()
}

/// Diagnostic for a refused guest-mode entry, carrying the hardware's
/// failure reason code in decimal.
pub open spec fn fail_entry_message(reason: u64) -> Seq<u8> {
    "KVM_EXIT_FAIL_ENTRY: hardware_entry_failure_reason = ".spec_bytes() + spec_decimal(
        reason as nat,
    )
}

/// Diagnostic for an internal inconsistency of the host virtualization
/// layer, carrying the sub-error code in decimal.
pub open spec fn internal_error_message(suberror: u32) -> Seq<u8> {
    "KVM_EXIT_INTERNAL_ERROR: suberror = ".spec_bytes() + spec_decimal(suberror as nat)
}

/// Diagnostic for an exit reason this monitor does not recognize, carrying
/// the raw reason code in decimal.
pub open spec fn unknown_message(raw: u32) -> Seq<u8> {
    "Unhandled reason: ".spec_bytes() + spec_decimal(raw as nat)
}

/// The status the monitor ends with on the given exit reason: 0 for a
/// guest halt, 1 for every failure or unrecognized reason. (A port-I/O
/// exit does not finish through a status; its dispatch emits output.)
pub open spec fn spec_status(exit: ExitReason) -> u32 {
    match exit {
        ExitReason::Halt => 0u32,
        _ => 1u32,
    }
}

/// The diagnostic line reported for the given exit reason; a port-I/O exit
/// reports nothing.
pub open spec fn spec_diagnostic(exit: ExitReason) -> Seq<u8> {
    match exit {
        ExitReason::Halt => halt_message(),
        ExitReason::Io { .. } => Seq::empty(),
        ExitReason::FailEntry { reason } => fail_entry_message(reason),
        ExitReason::InternalError { suberror } => internal_error_message(suberror),
        ExitReason::Shutdown => shutdown_message(),
        ExitReason::Unknown { raw } => unknown_message(raw),
    }
}

/// Builds the diagnostic line for the given exit reason.
pub fn gen_diagnostic(exit: &ExitReason) -> (r: Vec<u8>)
    ensures
        r@ == spec_diagnostic(*exit),
{
    match *exit {
        ExitReason::Halt => slice_to_vec("KVM_EXIT_HLT".as_bytes()),
        ExitReason::Io { .. } => Vec::new(),
        ExitReason::FailEntry { reason } => {
            let mut v = slice_to_vec(
                "KVM_EXIT_FAIL_ENTRY: hardware_entry_failure_reason = ".as_bytes(),
            );
            let mut d = decimal_digits(reason);
            v.append(&mut d);
            v
        },
        ExitReason::InternalError { suberror } => {
            let mut v = slice_to_vec("KVM_EXIT_INTERNAL_ERROR: suberror = ".as_bytes());
            let mut d = decimal_digits(suberror as u64);
            v.append(&mut d);
            v
        },
        ExitReason::Shutdown => slice_to_vec("KVM_EXIT_SHUTDOWN".as_bytes()),
        ExitReason::Unknown { raw } => {
            let mut v = slice_to_vec("Unhandled reason: ".as_bytes());
            let mut d = decimal_digits(raw as u64);
            v.append(&mut d);
            v
        },
    }
}

/// What the monitor must do after one exit.
pub enum ExitOutcome {
    /// Emit the null-terminated bytes found at `data_offset` within the run
    /// page on standard output, then end the dispatch loop with status 0.
    Output { data_offset: u64 },
    /// Report the diagnostic line and end the dispatch loop with `status`.
    Terminate { status: u32, diagnostic: Vec<u8> },
}

/// Maps a decoded exit reason to the monitor decision. Every reason ends
/// the dispatch loop: no decision resumes the virtual CPU.
pub fn handle_exit(exit: &ExitReason) -> (r: ExitOutcome)
    ensures
        (*exit matches ExitReason::Io { data_offset } ==> r == ExitOutcome::Output {
            data_offset,
        }),
        (!(*exit is Io) ==> (r matches ExitOutcome::Terminate { status, diagnostic }
            && status == spec_status(*exit) && diagnostic@ == spec_diagnostic(*exit))),
{
    match *exit {
        ExitReason::Io { data_offset } => ExitOutcome::Output { data_offset },
        ExitReason::Halt => ExitOutcome::Terminate {
            status: 0,
            diagnostic: gen_diagnostic(exit),
        },
        _ => ExitOutcome::Terminate { status: 1, diagnostic: gen_diagnostic(exit) },
    }
}

/// The null-terminated byte string starting at offset `i` of `s`: the bytes
/// up to but not including the first zero byte at or after `i`, or nothing
/// if no zero byte follows within `s`.
pub open spec fn spec_cstr_from(s: Seq<u8>, i: int) -> Option<Seq<u8>>
    decreases s.len() - i,
    when 0 <= i
{
    if i >= s.len() {
        None
    } else if s[i] == 0 {
        Some(Seq::empty())
    } else {
        match spec_cstr_from(s, i + 1) {
            Some(t) => Some(seq![s[i]] + t),
            None => None,
        }
    }
}

proof fn lemma_cstr_found(s: Seq<u8>, i: int, j: int)
    requires
        0 <= i <= j < s.len(),
        s[j] == 0,
        forall|k: int| i <= k < j ==> s[k] != 0,
    ensures
        spec_cstr_from(s, i) == Some(s.subrange(i, j)),
    decreases j - i,
{
    if i == j {
        assert(s.subrange(i, j) =~= Seq::<u8>::empty());
    } else {
        lemma_cstr_found(s, i + 1, j);
        assert(seq![s[i]] + s.subrange(i + 1, j) =~= s.subrange(i, j));
    }
}

proof fn lemma_cstr_missing(s: Seq<u8>, i: int)
    requires
        0 <= i <= s.len(),
        forall|k: int| i <= k < s.len() ==> s[k] != 0,
    ensures
        spec_cstr_from(s, i) is None,
    decreases s.len() - i,
{
    if i < s.len() {
        lemma_cstr_missing(s, i + 1);
    }
}

/// Reads the null-terminated byte string at offset `offset` of `page`:
/// the bytes before the first zero byte at or after `offset`, or `None`
/// when no zero byte exists there — the bounded, checked counterpart of
/// reading a C string out of the shared run page.
pub fn read_cstring(page: &Vec<u8>, offset: usize) -> (r: Option<Vec<u8>>)
    ensures
        (r matches Some(text) ==> spec_cstr_from(page@, offset as int) == Some(text@)),
        (r is None ==> spec_cstr_from(page@, offset as int) is None),
{
    let n: usize = page.len();
    if offset >= n {
        return None;
    }
    let mut j: usize = offset;
    while j < n && page[j] != 0
        invariant
            offset <= j <= n,
            n == page@.len(),
            forall|k: int| offset <= k < j ==> page@[k] != 0,
        decreases n - j,
    {
        j = j + 1;
    }
    if j == n {
        proof {
            lemma_cstr_missing(page@, offset as int);
        }
        return None;
    }
    let mut text: Vec<u8> = Vec::new();
    let mut k: usize = offset;
    while k < j
        invariant
            offset <= k <= j < n,
            n == page@.len(),
            page@[j as int] == 0,
            forall|m: int| offset <= m < j ==> page@[m] != 0,
            text@ == page@.subrange(offset as int, k as int),
        decreases j - k,
    {
        text.push(page[k]);
        k = k + 1;
    }
    proof {
        lemma_cstr_found(page@, offset as int, j as int);
    }
    Some(text)
}

/// The outcome of one dispatch step over a whole run page.
pub enum StepResult {
    /// Write `text` to standard output; the dispatch loop ends and the
    /// monitor returns status 0.
    Emit { text: Vec<u8> },
    /// Report `diagnostic`; the dispatch loop ends with `status`.
    Finish { status: u32, diagnostic: Vec<u8> },
    /// The run page is too short to decode, or its port-I/O payload points
    /// at no null-terminated string within the page: the page cannot be
    /// trusted, and nothing of it is acted on.
    Malformed,
}

/// What a dispatch step must conclude from a run page holding the bytes
/// `s`: the exact relation `monitor_step` is proved to satisfy.
pub open spec fn step_spec(s: Seq<u8>, r: StepResult) -> bool {
    match spec_decode(s) {
        None => r is Malformed,
        Some(exit) => match exit {
            ExitReason::Io { data_offset } => match spec_cstr_from(s, data_offset as int) {
                Some(t) => (r matches StepResult::Emit { text } && text@ == t),
                None => r is Malformed,
            },
            _ => (r matches StepResult::Finish { status, diagnostic }
                && status == spec_status(exit) && diagnostic@ == spec_diagnostic(exit)),
        },
    }
}

/// One step of the dispatch loop, given the bytes of the run page after a
/// resume: decode why execution stopped, and produce the decision — the
/// guest's output bytes for a port-I/O exit, otherwise a terminal status
/// with its diagnostic line.
pub fn monitor_step(page: &Vec<u8>) -> (r: StepResult)
    ensures
        step_spec(page@, r),
{
    match decode_run(page) {
        None => StepResult::Malformed,
        Some(exit) => match handle_exit(&exit) {
            ExitOutcome::Output { data_offset } => {
                if data_offset >= page.len() as u64 {
                    StepResult::Malformed
                } else {
                    match read_cstring(page, data_offset as usize) {
                        Some(text) => StepResult::Emit { text },
                        None => StepResult::Malformed,
                    }
                }
            },
            ExitOutcome::Terminate { status, diagnostic } => StepResult::Finish {
                status,
                diagnostic,
            },
        },
    }
}

/// Law: a run page whose exit-reason word is the halt code dispatches to a
/// terminal outcome with status 0 and the halt diagnostic — and to nothing
/// else, so the loop ends after exactly this one diagnostic. No outcome
/// resumes execution, so the dispatch loop always terminates.
pub proof fn lemma_halt_dispatch(page: Seq<u8>, r: StepResult)
    requires
        page.len() >= RUN_PAGE_MIN,
        le_u32_at(page, EXIT_REASON_OFFSET as int) == 5,
        step_spec(page, r),
    ensures
        (r matches StepResult::Finish { status, diagnostic } && status == 0 && diagnostic@
            == halt_message()),
{
}

/// Law: a run page whose exit-reason word is the port-I/O code, and whose
/// payload points at a null-terminated string within the page, dispatches
/// to exactly one emission of exactly those bytes — single-shot: the
/// outcome ends the loop rather than resuming the virtual CPU for further
/// output.
pub proof fn lemma_io_single_shot(page: Seq<u8>, text: Seq<u8>, r: StepResult)
    requires
        page.len() >= RUN_PAGE_MIN,
        le_u32_at(page, EXIT_REASON_OFFSET as int) == 2,
        spec_cstr_from(page, le_u64_at(page, IO_DATA_OFFSET_OFFSET as int) as int) == Some(text),
        step_spec(page, r),
    ensures
        (r matches StepResult::Emit { text: emitted } && emitted@ == text),
{
}

/// Law: a run page whose exit-reason word is none of the recognized codes
/// dispatches to status 1 with a diagnostic that is the fixed prefix
/// followed by the decimal digits of the raw reason word — digits that
/// parse back to that word, so the diagnostic carries the raw value.
pub proof fn lemma_unknown_dispatch(page: Seq<u8>, r: StepResult)
    requires
        page.len() >= RUN_PAGE_MIN,
        le_u32_at(page, EXIT_REASON_OFFSET as int) != 2,
        le_u32_at(page, EXIT_REASON_OFFSET as int) != 5,
        le_u32_at(page, EXIT_REASON_OFFSET as int) != 8,
        le_u32_at(page, EXIT_REASON_OFFSET as int) != 9,
        le_u32_at(page, EXIT_REASON_OFFSET as int) != 17,
        step_spec(page, r),
    ensures
        (r matches StepResult::Finish { status, diagnostic } && status == 1 && diagnostic@
            == "Unhandled reason: ".spec_bytes() + spec_decimal(
            le_u32_at(page, EXIT_REASON_OFFSET as int) as nat,
        )),
        spec_parse_decimal(spec_decimal(le_u32_at(page, EXIT_REASON_OFFSET as int) as nat))
            == le_u32_at(page, EXIT_REASON_OFFSET as int),
{
    lemma_decimal_round_trip(le_u32_at(page, EXIT_REASON_OFFSET as int) as nat);
}

} // verus!
