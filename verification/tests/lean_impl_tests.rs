use lean_impl::config::ConfigTemplate;
use lean_impl::decimal::{parse_u64, parse_u64_or_zero, u64_to_decimal};
use lean_impl::diff::{judge_runs, max_steps_for, sbpf_version_number, text_contains, ReferenceRun, RunVerdict, SbpfVersion};
use lean_impl::disasm::{decode_insn, instruction_listing, DecodedInsn};
use lean_impl::init::{lean_initialize_finish, lean_initialize_once, InitOutcome, InitPhase, InitRequest, LeanInit};
use lean_impl::object::{lean_box, lean_dec, lean_io_mk_world, lean_is_scalar, lean_object, DecRef, LEAN_STRING_TAG};
use lean_impl::protocol::{FunctionRegistryEntry, LeanVmState, Request, Response};

fn header(rc: i32, tag: u8) -> lean_object {
    lean_object { m_rc: rc, m_cs_sz: 7, m_other: 3, m_tag: tag }
}

#[test]
fn box_sets_low_bit_and_shifts() {
    assert_eq!(lean_box(0), 1);
    assert_eq!(lean_box(5), 11);
    assert_eq!(lean_box(usize::MAX), usize::MAX);
    assert_eq!(lean_box(usize::MAX / 2 + 1), 1);
}

#[test]
fn boxed_values_are_scalars() {
    for n in [0usize, 1, 2, 1000, usize::MAX / 2, usize::MAX] {
        assert!(lean_is_scalar(lean_box(n)));
    }
    assert!(!lean_is_scalar(0x1000));
    assert!(lean_is_scalar(0x1001));
}

#[test]
fn world_token_is_boxed_zero() {
    assert_eq!(lean_io_mk_world(), 1);
    assert!(lean_is_scalar(lean_io_mk_world()));
}

#[test]
fn tags_classify_objects() {
    let s = header(1, LEAN_STRING_TAG);
    assert_eq!(s.lean_ptr_tag(), 249);
    assert!(s.lean_is_string());
    assert!(!s.lean_io_result_is_ok());
    let ok = header(1, 0);
    assert!(ok.lean_io_result_is_ok());
    assert!(!ok.lean_is_string());
}

#[test]
fn dec_ref_decrements_shared_objects() {
    let mut o = header(3, 5);
    assert_eq!(o.lean_dec_ref(), DecRef::Decremented);
    assert_eq!(o, header(2, 5));
    assert_eq!(o.lean_dec_ref(), DecRef::Decremented);
    assert_eq!(o, header(1, 5));
}

#[test]
fn dec_ref_hands_last_owner_to_runtime() {
    let mut o = header(1, 5);
    assert_eq!(o.lean_dec_ref(), DecRef::ReleaseInRuntime);
    assert_eq!(o, header(1, 5));
    let mut shared = header(-2, 5);
    assert_eq!(shared.lean_dec_ref(), DecRef::ReleaseInRuntime);
    assert_eq!(shared, header(-2, 5));
}

#[test]
fn dec_ref_leaves_persistent_objects() {
    let mut o = header(0, 5);
    assert_eq!(o.lean_dec_ref(), DecRef::Persistent);
    assert_eq!(o, header(0, 5));
}

#[test]
fn dec_on_scalar_touches_nothing() {
    let mut o = header(4, 5);
    assert_eq!(lean_dec(lean_box(9), &mut o), DecRef::Scalar);
    assert_eq!(o, header(4, 5));
    assert_eq!(lean_dec(0x2000, &mut o), DecRef::Decremented);
    assert_eq!(o, header(3, 5));
}

#[test]
fn initialization_is_requested_once() {
    let mut init = LeanInit::new();
    assert_eq!(init.current_phase(), InitPhase::NotStarted);
    assert_eq!(lean_initialize_once(&mut init), InitRequest::Start { builtin: 1, world: 1 });
    assert_eq!(init.current_phase(), InitPhase::InProgress);
    assert_eq!(lean_initialize_once(&mut init), InitRequest::Busy);
    let mut result = header(1, 0);
    let outcome = lean_initialize_finish(&mut init, 0x4000, &mut result);
    assert_eq!(outcome, InitOutcome::Succeeded { release: DecRef::ReleaseInRuntime });
    assert_eq!(init.current_phase(), InitPhase::Ready);
    assert_eq!(lean_initialize_once(&mut init), InitRequest::AlreadyDone);
    assert_eq!(lean_initialize_once(&mut init), InitRequest::AlreadyDone);
    assert_eq!(init.current_phase(), InitPhase::Ready);
}

#[test]
fn successful_result_with_shared_count_is_decremented() {
    let mut init = LeanInit::new();
    let _ = lean_initialize_once(&mut init);
    let mut result = header(2, 0);
    assert_eq!(
        lean_initialize_finish(&mut init, 0x4000, &mut result),
        InitOutcome::Succeeded { release: DecRef::Decremented }
    );
    assert_eq!(result, header(1, 0));
}

#[test]
fn failed_initialization_poisons() {
    let mut init = LeanInit::new();
    let _ = lean_initialize_once(&mut init);
    let mut result = header(1, 1);
    assert_eq!(
        lean_initialize_finish(&mut init, 0x4000, &mut result),
        InitOutcome::Failed { release: DecRef::ReleaseInRuntime }
    );
    assert_eq!(init.current_phase(), InitPhase::Poisoned);
    assert_eq!(lean_initialize_once(&mut init), InitRequest::Poisoned);
    assert_eq!(lean_initialize_once(&mut init), InitRequest::Poisoned);
}

#[test]
fn failed_scalar_result_is_not_released() {
    let mut init = LeanInit::new();
    let _ = lean_initialize_once(&mut init);
    let mut result = header(1, 1);
    assert_eq!(
        lean_initialize_finish(&mut init, 0x4001, &mut result),
        InitOutcome::Failed { release: DecRef::Scalar }
    );
    assert_eq!(result, header(1, 1));
}

#[test]
fn decimal_text_matches_to_string() {
    for n in [0u64, 7, 10, 99, 100, 12345, 1 << 32, u64::MAX] {
        assert_eq!(u64_to_decimal(n), n.to_string());
    }
    assert_eq!(u64_to_decimal(4096), "4096");
}

#[test]
fn decimal_round_trip() {
    for n in [0u64, 1, 9, 10, 255, 65536, 1 << 40, u64::MAX - 1, u64::MAX] {
        assert_eq!(parse_u64(&u64_to_decimal(n)), Some(n));
        assert_eq!(parse_u64_or_zero(&u64_to_decimal(n)), n);
    }
}

#[test]
fn parse_accepts_what_std_accepts() {
    assert_eq!(parse_u64("42"), Some(42));
    assert_eq!(parse_u64("+42"), Some(42));
    assert_eq!(parse_u64("007"), Some(7));
    assert_eq!(parse_u64("18446744073709551615"), Some(u64::MAX));
}

#[test]
fn parse_rejects_what_std_rejects() {
    for s in ["", "+", "-", "-1", "++1", " 1", "1 ", "1a", "0x10", "18446744073709551616", "99999999999999999999999", "٣"] {
        assert_eq!(parse_u64(s), None, "{:?}", s);
        assert_eq!(parse_u64(s), s.parse::<u64>().ok(), "{:?}", s);
        assert_eq!(parse_u64_or_zero(s), 0);
    }
}

#[test]
fn registry_entries_write_addresses_in_decimal() {
    let e = FunctionRegistryEntry::registry_entry(7, b"entrypoint".to_vec(), 4096);
    assert_eq!(e.key, 7);
    assert_eq!(e.symbol, b"entrypoint".to_vec());
    assert_eq!(e.address, "4096");
    let l = FunctionRegistryEntry::loader_registry_entry(9, b"log".to_vec());
    assert_eq!(l.key, 9);
    assert_eq!(l.address, "0");
}

#[test]
fn request_writes_numbers_as_text() {
    let input = vec![1u8, 2, 3];
    let r = Request::lean_request(
        vec![0x95, 0, 0, 0, 0, 0, 0, 0],
        &input,
        0x100000000,
        29,
        3,
        4096,
        64,
        262144,
        vec![FunctionRegistryEntry::registry_entry(1, b"f".to_vec(), 8)],
        vec![],
    );
    assert_eq!(r.code, vec![0x95, 0, 0, 0, 0, 0, 0, 0]);
    assert_eq!(r.input, input);
    assert_eq!(r.code_vaddr, "4294967296");
    assert_eq!(r.pc, "29");
    assert_eq!(r.version, 3);
    assert_eq!(r.remaining_steps, "4096");
    assert_eq!(r.max_call_depth, "64");
    assert_eq!(r.stack_len, "262144");
    assert_eq!(r.function_registry.len(), 1);
    assert_eq!(r.function_registry[0].address, "8");
    assert!(r.loader_function_registry.is_empty());
}

#[test]
fn reply_registers_are_read_or_zero() {
    let response = Response {
        status: "ok".to_string(),
        regs: vec!["0".to_string(), "18446744073709551615".to_string(), "junk".to_string(), "+12".to_string(), "-3".to_string()],
        pc: "17".to_string(),
        program_result: "Ok(0)".to_string(),
        halted: true,
    };
    let s = LeanVmState::from_response(vec![9, 9], response);
    assert_eq!(s.input, vec![9, 9]);
    assert_eq!(s.regs, vec![0, u64::MAX, 0, 12, 0]);
    assert_eq!(s.pc, 17);
    assert!(s.halted);
    assert_eq!(s.program_result, "Ok(0)");
}

#[test]
fn reply_with_unreadable_pc_gives_zero() {
    let response = Response {
        status: "err".to_string(),
        regs: vec![],
        pc: "".to_string(),
        program_result: "Err(x)".to_string(),
        halted: false,
    };
    let s = LeanVmState::from_response(vec![], response);
    assert_eq!(s.pc, 0);
    assert!(s.regs.is_empty());
    assert!(!s.halted);
}

#[test]
fn decode_reads_fields_of_a_slot() {
    // opc 0xb7, dst 1, src 2, off -2, imm 0xfffffffe (not sign extended)
    let code = [0u8, 0xb7, 0x21, 0xfe, 0xff, 0xfe, 0xff, 0xff, 0xff];
    let insn = decode_insn(&code, 1);
    assert_eq!(insn, DecodedInsn { ptr: 1, opc: 0xb7, dst: 1, src: 2, off: -2, imm: 0xffff_fffe });
}

#[test]
fn decode_matches_the_word_formula() {
    let code: Vec<u8> = (0u8..16).map(|b| b.wrapping_mul(37).wrapping_add(11)).collect();
    let w = u64::from_le_bytes(code[8..16].try_into().unwrap());
    let insn = decode_insn(&code, 8);
    assert_eq!(insn.opc, (w & 0xff) as u8);
    assert_eq!(insn.dst, ((w >> 8) & 0xf) as u8);
    assert_eq!(insn.src, ((w >> 12) & 0xf) as u8);
    assert_eq!(insn.off, ((w >> 16) & 0xffff) as i16);
    assert_eq!(insn.imm, (w >> 32) as i64);
    assert_eq!(insn.ptr, 8);
}

#[test]
fn listing_skips_a_short_tail() {
    let mut code = vec![0x95u8, 0, 0, 0, 0, 0, 0, 0, 0xb7, 0x10, 1, 0, 5, 0, 0, 0];
    code.extend_from_slice(&[1, 2, 3]);
    let insns = instruction_listing(&code);
    assert_eq!(insns.len(), 2);
    assert_eq!(insns[0], DecodedInsn { ptr: 0, opc: 0x95, dst: 0, src: 0, off: 0, imm: 0 });
    assert_eq!(insns[1], DecodedInsn { ptr: 8, opc: 0xb7, dst: 0, src: 1, off: 1, imm: 5 });
    assert!(instruction_listing(&[1, 2, 3]).is_empty());
    assert!(instruction_listing(&[]).is_empty());
}

#[test]
fn config_from_full_data() {
    // flags 0x020b: bits 0, 1, 3 and 9 set; depth 63; distance 1000; noop 256
    let data = [0x0b, 0x02, 63, 0xe8, 0x03, 0x00, 0x01, 0xaa];
    let mut u = arbitrary::Unstructured::new(&data);
    let t = ConfigTemplate::arbitrary(&mut u).unwrap();
    assert_eq!(t.max_call_depth, 64);
    assert_eq!(t.instruction_meter_checkpoint_distance, 1000);
    assert_eq!(t.noop_instruction_rate, 256);
    assert!(t.enable_stack_frame_gaps);
    assert!(t.enable_symbol_and_section_labels);
    assert!(t.sanitize_user_provided_values);
    assert!(t.optimize_rodata);
    assert_eq!(u.len(), 1);
}

#[test]
fn config_flags_use_only_their_bits() {
    // flags 0xfdf4: bits 0, 1, 3 and 9 clear, every other bit set
    let t = ConfigTemplate::from_values(0xfdf4, 255, 0xffff, 0);
    assert_eq!(t.max_call_depth, 256);
    assert_eq!(t.instruction_meter_checkpoint_distance, 0xffff);
    assert_eq!(t.noop_instruction_rate, 0);
    assert!(!t.enable_stack_frame_gaps);
    assert!(!t.enable_symbol_and_section_labels);
    assert!(!t.sanitize_user_provided_values);
    assert!(!t.optimize_rodata);
}

#[test]
fn config_from_short_data_pads_with_zeros() {
    let data = [0x01u8, 0x00, 0x07, 0x05];
    let mut u = arbitrary::Unstructured::new(&data);
    let t = ConfigTemplate::arbitrary(&mut u).unwrap();
    assert_eq!(t.max_call_depth, 8);
    assert_eq!(t.instruction_meter_checkpoint_distance, 5);
    assert_eq!(t.noop_instruction_rate, 0);
    assert!(t.enable_stack_frame_gaps);
    assert!(!t.optimize_rodata);
    assert!(u.is_empty());
    let mut empty = arbitrary::Unstructured::new(&[]);
    let z = ConfigTemplate::arbitrary(&mut empty).unwrap();
    assert_eq!(z.max_call_depth, 1);
    assert_eq!(z, ConfigTemplate::from_values(0, 0, 0, 0));
}

#[test]
fn config_size_hint() {
    assert_eq!(ConfigTemplate::size_hint(0), (13, None));
    assert_eq!(ConfigTemplate::size_hint(5), (13, None));
}

#[test]
fn step_budget_formula() {
    assert_eq!(max_steps_for(0), 8);
    assert_eq!(max_steps_for(1), 16);
    assert_eq!(max_steps_for(9), 4096);
    assert_eq!(max_steps_for(10), 8);
    assert_eq!(max_steps_for(255), 1 << (3 + 255 % 10));
}

#[test]
fn version_numbers() {
    assert_eq!(sbpf_version_number(SbpfVersion::V0), 0);
    assert_eq!(sbpf_version_number(SbpfVersion::V3), 3);
    assert_eq!(sbpf_version_number(SbpfVersion::V4), 4);
    assert_eq!(sbpf_version_number(SbpfVersion::Reserved), 5);
}

#[test]
fn text_contains_like_std() {
    for (h, n) in [("abc", ""), ("", ""), ("", "a"), ("abc", "bc"), ("abc", "abcd"), ("aab", "ab"), ("CallDepthExceeded", "CallDepth"), ("é€x", "€x")] {
        assert_eq!(text_contains(h, n), h.contains(n), "{:?} {:?}", h, n);
    }
}

fn lean_state(result: &str, regs: Vec<u64>, memory: Vec<u8>) -> LeanVmState {
    LeanVmState { input: memory, regs, pc: 0, halted: true, program_result: result.to_string() }
}

fn reference(result: &str, error: Option<&str>, regs: Option<Vec<u64>>, memory: Vec<u8>) -> ReferenceRun {
    ReferenceRun {
        result_text: result.to_string(),
        error_text: error.map(|e| e.to_string()),
        registers: regs,
        memory,
    }
}

#[test]
fn runs_that_agree() {
    let r = reference("Ok(0)", None, Some(vec![1, 2, 3, 77]), vec![5]);
    assert_eq!(judge_runs(&r, &Ok(lean_state("Ok(0)", vec![1, 2, 3], vec![])), &Some(vec![5])), RunVerdict::Agree);
    assert_eq!(judge_runs(&r, &Ok(lean_state("Ok(0)", vec![1, 2, 3], vec![])), &None), RunVerdict::Agree);
}

#[test]
fn runs_with_different_results() {
    let r = reference("Ok(0)", None, Some(vec![1]), vec![]);
    assert_eq!(judge_runs(&r, &Ok(lean_state("Ok(1)", vec![], vec![])), &None), RunVerdict::ResultDivergence);
}

#[test]
fn runs_with_different_registers() {
    let r = reference("Ok(0)", None, Some(vec![1, 2, 77]), vec![]);
    assert_eq!(judge_runs(&r, &Ok(lean_state("Ok(0)", vec![1, 3], vec![])), &None), RunVerdict::RegisterMismatch);
    let no_regs = reference("Ok(0)", None, None, vec![]);
    assert_eq!(judge_runs(&no_regs, &Ok(lean_state("Ok(0)", vec![], vec![])), &None), RunVerdict::MissingRegisters);
}

#[test]
fn runs_with_different_memory() {
    let r = reference("Ok(0)", None, Some(vec![9]), vec![1, 2]);
    assert_eq!(judge_runs(&r, &Ok(lean_state("Ok(0)", vec![], vec![1, 2])), &Some(vec![1, 3])), RunVerdict::MemoryMismatch);
    // the input that was sent to the model is not the memory it reports
    assert_eq!(judge_runs(&r, &Ok(lean_state("Ok(0)", vec![], vec![7])), &Some(vec![1, 2])), RunVerdict::Agree);
}

#[test]
fn lean_failure_alone() {
    let r = reference("Ok(0)", None, Some(vec![]), vec![]);
    assert_eq!(judge_runs(&r, &Err("boom".to_string()), &None), RunVerdict::LeanFailedAlone);
}

#[test]
fn failures_compared_by_containment() {
    let r = reference("Err(CallDepthExceeded)", Some("CallDepthExceeded"), None, vec![]);
    assert_eq!(judge_runs(&r, &Err("CallDepthExceeded".to_string()), &None), RunVerdict::SameFailure);
    assert_eq!(judge_runs(&r, &Err("error: CallDepthExceeded at pc 3".to_string()), &None), RunVerdict::SameFailure);
    assert_eq!(judge_runs(&r, &Err("CallDepth".to_string()), &None), RunVerdict::SameFailure);
    assert_eq!(judge_runs(&r, &Err("DivideByZero".to_string()), &None), RunVerdict::ErrorMismatch);
}
