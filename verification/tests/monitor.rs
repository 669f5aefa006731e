use minikvm::dispatch::{decimal_digits, handle_exit, monitor_step, read_cstring, ExitOutcome, StepResult};
use minikvm::exits::{decode_run, ExitReason, RUN_PAGE_MIN};
use minikvm::memory::{build_guest_image, gen_memory_region};
use minikvm::regs::{apply_flat_code_segment, apply_initial_register_state, GeneralRegisters, Segment};
use minikvm::{INITIAL_RFLAGS, MEM_SIZE, STACK_BASE};

/// A run page of 4096 zero bytes with the given exit-reason word at offset 8.
fn page_with_reason(reason: u32) -> Vec<u8> {
    let mut page = vec![0u8; 4096];
    page[8..12].copy_from_slice(&reason.to_le_bytes());
    page
}

fn garbage_regs() -> GeneralRegisters {
    GeneralRegisters {
        rax: 1,
        rbx: 2,
        rcx: 3,
        rdx: 4,
        rsi: 5,
        rdi: 6,
        rsp: 7,
        rbp: 8,
        r8: 9,
        r9: 10,
        r10: 11,
        r11: 12,
        r12: 13,
        r13: 14,
        r14: 15,
        r15: 16,
        rip: 0xdead,
        rflags: 0xbeef,
    }
}

#[test]
fn halt_exit_finishes_with_status_zero() {
    let page = page_with_reason(kvm_bindings::KVM_EXIT_HLT);
    match monitor_step(&page) {
        StepResult::Finish { status, diagnostic } => {
            assert_eq!(status, 0);
            assert_eq!(diagnostic, b"KVM_EXIT_HLT".to_vec());
        }
        _ => panic!("halt must finish the dispatch loop"),
    }
}

#[test]
fn io_exit_emits_hello_and_stops() {
    let mut page = page_with_reason(kvm_bindings::KVM_EXIT_IO);
    // data_offset field of the port-I/O payload, at offset 40
    page[40..48].copy_from_slice(&64u64.to_le_bytes());
    page[64..70].copy_from_slice(b"hello\0");
    match monitor_step(&page) {
        StepResult::Emit { text } => assert_eq!(text, b"hello".to_vec()),
        _ => panic!("a port-I/O exit must emit the guest's bytes"),
    }
}

#[test]
fn fail_entry_diagnostic_carries_reason() {
    let mut page = page_with_reason(kvm_bindings::KVM_EXIT_FAIL_ENTRY);
    page[32..40].copy_from_slice(&12345u64.to_le_bytes());
    match monitor_step(&page) {
        StepResult::Finish { status, diagnostic } => {
            assert_eq!(status, 1);
            assert_eq!(
                diagnostic,
                b"KVM_EXIT_FAIL_ENTRY: hardware_entry_failure_reason = 12345".to_vec()
            );
        }
        _ => panic!("a refused entry must finish the dispatch loop"),
    }
}

#[test]
fn internal_error_diagnostic_carries_suberror() {
    let mut page = page_with_reason(kvm_bindings::KVM_EXIT_INTERNAL_ERROR);
    page[32..36].copy_from_slice(&77u32.to_le_bytes());
    match monitor_step(&page) {
        StepResult::Finish { status, diagnostic } => {
            assert_eq!(status, 1);
            assert_eq!(diagnostic, b"KVM_EXIT_INTERNAL_ERROR: suberror = 77".to_vec());
        }
        _ => panic!("an internal error must finish the dispatch loop"),
    }
}

#[test]
fn shutdown_finishes_with_status_one() {
    let page = page_with_reason(kvm_bindings::KVM_EXIT_SHUTDOWN);
    match monitor_step(&page) {
        StepResult::Finish { status, diagnostic } => {
            assert_eq!(status, 1);
            assert_eq!(diagnostic, b"KVM_EXIT_SHUTDOWN".to_vec());
        }
        _ => panic!("a shutdown must finish the dispatch loop"),
    }
}

#[test]
fn unknown_reason_reported_with_raw_value() {
    // KVM_EXIT_MMIO is real but unhandled by this monitor
    let page = page_with_reason(6);
    match monitor_step(&page) {
        StepResult::Finish { status, diagnostic } => {
            assert_eq!(status, 1);
            assert_eq!(diagnostic, b"Unhandled reason: 6".to_vec());
        }
        _ => panic!("an unrecognized reason must finish the dispatch loop"),
    }
}

#[test]
fn unknown_reason_large_value_rendered_in_decimal() {
    let page = page_with_reason(0xdead_beef);
    match monitor_step(&page) {
        StepResult::Finish { status, diagnostic } => {
            assert_eq!(status, 1);
            assert_eq!(diagnostic, b"Unhandled reason: 3735928559".to_vec());
        }
        _ => panic!("an unrecognized reason must finish the dispatch loop"),
    }
}

#[test]
fn short_page_is_malformed() {
    let page = vec![0u8; RUN_PAGE_MIN - 1];
    assert!(matches!(monitor_step(&page), StepResult::Malformed));
}

#[test]
fn io_exit_without_terminator_is_malformed() {
    let mut page = page_with_reason(kvm_bindings::KVM_EXIT_IO);
    page[40..48].copy_from_slice(&64u64.to_le_bytes());
    for b in page[64..].iter_mut() {
        *b = 0x41;
    }
    assert!(matches!(monitor_step(&page), StepResult::Malformed));
}

#[test]
fn io_exit_with_offset_beyond_page_is_malformed() {
    let mut page = page_with_reason(kvm_bindings::KVM_EXIT_IO);
    let page_len = page.len() as u64;
    page[40..48].copy_from_slice(&page_len.to_le_bytes());
    assert!(matches!(monitor_step(&page), StepResult::Malformed));
}

#[test]
fn decode_matches_the_kernel_binding_codes() {
    let page = page_with_reason(kvm_bindings::KVM_EXIT_HLT);
    assert_eq!(decode_run(&page), Some(ExitReason::Halt));

    let mut page = page_with_reason(kvm_bindings::KVM_EXIT_IO);
    page[40..48].copy_from_slice(&24u64.to_le_bytes());
    assert_eq!(decode_run(&page), Some(ExitReason::Io { data_offset: 24 }));

    let mut page = page_with_reason(kvm_bindings::KVM_EXIT_FAIL_ENTRY);
    page[32..40].copy_from_slice(&9u64.to_le_bytes());
    assert_eq!(decode_run(&page), Some(ExitReason::FailEntry { reason: 9 }));

    let mut page = page_with_reason(kvm_bindings::KVM_EXIT_INTERNAL_ERROR);
    page[32..36].copy_from_slice(&3u32.to_le_bytes());
    assert_eq!(decode_run(&page), Some(ExitReason::InternalError { suberror: 3 }));

    let page = page_with_reason(kvm_bindings::KVM_EXIT_SHUTDOWN);
    assert_eq!(decode_run(&page), Some(ExitReason::Shutdown));

    let page = page_with_reason(kvm_bindings::KVM_EXIT_MMIO);
    assert_eq!(
        decode_run(&page),
        Some(ExitReason::Unknown { raw: kvm_bindings::KVM_EXIT_MMIO })
    );
}

#[test]
fn handle_exit_routes_io_to_output() {
    match handle_exit(&ExitReason::Io { data_offset: 512 }) {
        ExitOutcome::Output { data_offset } => assert_eq!(data_offset, 512),
        _ => panic!("a port-I/O exit must be routed to output"),
    }
}

#[test]
fn read_cstring_stops_at_first_zero_byte() {
    let mut page = vec![0u8; 128];
    page[10..14].copy_from_slice(b"ab\0c");
    assert_eq!(read_cstring(&page, 10), Some(b"ab".to_vec()));
    // a zero byte right at the offset gives the empty string
    assert_eq!(read_cstring(&page, 12), Some(Vec::new()));
    // an offset past the end of the page gives nothing
    assert_eq!(read_cstring(&page, 128), None);
}

#[test]
fn decimal_digits_exact_values() {
    assert_eq!(decimal_digits(0), b"0".to_vec());
    assert_eq!(decimal_digits(9), b"9".to_vec());
    assert_eq!(decimal_digits(10), b"10".to_vec());
    assert_eq!(decimal_digits(105), b"105".to_vec());
    assert_eq!(decimal_digits(u64::MAX), b"18446744073709551615".to_vec());
}

#[test]
fn registers_initialized_to_entry_stack_and_flags() {
    let mut regs = garbage_regs();
    apply_initial_register_state(&mut regs, 0);
    assert_eq!(regs.rip, 0);
    assert_eq!(regs.rsp, STACK_BASE);
    assert_eq!(regs.rsp, 0x200000);
    assert_eq!(regs.rflags, INITIAL_RFLAGS);
    assert_eq!(regs.rflags, 0x2);
    // everything the host kernel reported and the monitor does not set is kept
    assert_eq!(regs.rax, 1);
    assert_eq!(regs.rbx, 2);
    assert_eq!(regs.rcx, 3);
    assert_eq!(regs.rdx, 4);
    assert_eq!(regs.rsi, 5);
    assert_eq!(regs.rdi, 6);
    assert_eq!(regs.rbp, 8);
    assert_eq!(regs.r8, 9);
    assert_eq!(regs.r15, 16);
}

#[test]
fn code_segment_collapsed_to_flat_addressing() {
    let mut cs = Segment {
        base: 0xffff0000,
        limit: 0xffff,
        selector: 0xf000,
        type_: 11,
        present: 1,
        dpl: 0,
        db: 0,
        s: 1,
        l: 0,
        g: 0,
        avl: 0,
        unusable: 0,
    };
    apply_flat_code_segment(&mut cs);
    assert_eq!(cs.base, 0);
    assert_eq!(cs.selector, 0);
    // the remaining descriptor fields are kept as fetched
    assert_eq!(cs.limit, 0xffff);
    assert_eq!(cs.type_, 11);
    assert_eq!(cs.present, 1);
    assert_eq!(cs.s, 1);
}

#[test]
fn memory_region_request_has_fixed_fields() {
    let region = gen_memory_region(0x7f00_0000_0000, MEM_SIZE as u64);
    assert_eq!(region.slot, 0);
    assert_eq!(region.flags, 0);
    assert_eq!(region.guest_phys_address, 0);
    assert_eq!(region.memory_size, MEM_SIZE as u64);
    assert_eq!(region.userspace_addr, 0x7f00_0000_0000);
}

#[test]
fn guest_image_holds_program_then_zeroes() {
    let code = vec![0xb0u8, 0x61, 0xf4];
    let image = build_guest_image(&code).expect("program fits the region");
    assert_eq!(image.len(), MEM_SIZE);
    assert_eq!(&image[..3], &code[..]);
    assert!(image[3..].iter().all(|&b| b == 0));
}

#[test]
fn oversized_program_is_rejected() {
    let code = vec![0x90u8; MEM_SIZE + 1];
    assert!(build_guest_image(&code).is_none());
    // the boundary case still fits
    let code = vec![0x90u8; MEM_SIZE];
    assert!(build_guest_image(&code).is_some());
}
