use zkevm_circuits::bytecode::Bytecode;
use zkevm_circuits::error_invalid_jump::{ErrorInvalidJumpGadget, InvalidJumpWitness};
use zkevm_circuits::opcode::{JUMP, JUMPDEST, PUSH1, PUSH32, STOP};
use zkevm_circuits::restore_context::CallerContext;
use zkevm_circuits::step::StepState;
use zkevm_circuits::witness::{Call, CallContextFieldTag, ExecStep, Rw};
use zkevm_circuits::word::Word;

/// PUSH32 of the jump target, JUMP, filler bytes up to `destination`, then
/// JUMPDEST and STOP.
fn invalid_jump_code(destination: usize, out_of_range: bool) -> (Bytecode, u64) {
    let target = if out_of_range { destination + 10 } else { destination };
    let mut bytes = vec![PUSH32];
    for _ in 0..24 {
        bytes.push(0);
    }
    bytes.extend_from_slice(&(target as u64).to_be_bytes());
    bytes.push(JUMP);
    for _ in 0..(destination - 33) {
        bytes.push(0);
    }
    bytes.push(JUMPDEST);
    bytes.push(STOP);
    (Bytecode::new(bytes), target as u64)
}

fn no_caller() -> CallerContext {
    CallerContext {
        caller_id: 0,
        is_root: false,
        program_counter: 0,
        stack_pointer: 0,
        gas_left: 0,
        memory_word_size: 0,
        reversible_write_counter: 0,
    }
}

fn root_state(rw_counter: u64) -> StepState {
    StepState {
        rw_counter,
        call_id: 1,
        is_root: true,
        program_counter: 33,
        stack_pointer: 1023,
        gas_left: 100,
        memory_word_size: 0,
        reversible_write_counter: 0,
        log_id: 0,
    }
}

fn run_invalid_jump(destination: usize, out_of_range: bool) -> (InvalidJumpWitness, bool) {
    let (code, target) = invalid_jump_code(destination, out_of_range);
    let gadget = ErrorInvalidJumpGadget::configure();
    let pop = Rw::Stack {
        rw_counter: 2,
        is_write: false,
        call_id: 1,
        stack_pointer: 1023,
        value: Word::from_u64(target),
    };
    let success = Rw::CallContext {
        rw_counter: 3,
        is_write: false,
        call_id: 1,
        field_tag: CallContextFieldTag::IsSuccess,
        value: Word::from_u64(0),
    };
    let rws = vec![pop, success];
    let step = ExecStep { opcode: Some(JUMP), rw_indices: vec![0, 1] };
    let call = Call { call_id: 1, is_root: true };
    let w = gadget.assign_exec_step(&rws, &call, &step, &code).0;
    let curr = root_state(2);
    let next = root_state(4);
    let ok = gadget.check_step(&curr, &next, true, &code, &w, &rws[0], &rws[1], &no_caller(), &vec![]);
    (w, ok)
}

#[test]
fn invalid_jump_err() {
    let (w, ok) = run_invalid_jump(34, false);
    assert!(ok);
    assert_eq!(w.destination, 34);
    assert_eq!(w.code_length, 37);
    assert_eq!(w.value, 0);
    assert!(w.is_code);
    assert!(!w.is_jump_dest);
    assert!(!w.out_of_range);
}

#[test]
fn invalid_jump_outofrange() {
    let (w, ok) = run_invalid_jump(40, true);
    assert!(ok);
    assert_eq!(w.destination, 50);
    assert_eq!(w.code_length, 43);
    assert_eq!(w.value, 0);
    assert!(!w.is_code);
    assert!(w.out_of_range);
}

#[test]
fn valid_destination_fails_constraints() {
    let (code, _) = invalid_jump_code(34, false);
    let gadget = ErrorInvalidJumpGadget::configure();
    let w = InvalidJumpWitness {
        opcode: JUMP,
        destination: 35,
        code_length: 37,
        value: JUMPDEST,
        is_code: true,
        is_jump_dest: true,
        out_of_range: false,
    };
    assert!(!gadget.check_witness(&w, &code));
    let lying = InvalidJumpWitness { is_code: false, ..w };
    assert!(!gadget.check_witness(&lying, &code));
}

#[test]
fn jumpdest_inside_push_data_is_invalid() {
    let code = Bytecode::new(vec![PUSH1, JUMPDEST, JUMP, STOP]);
    assert_eq!(code.get(1), (JUMPDEST, false));
    assert_eq!(code.get(2), (JUMP, true));
    let gadget = ErrorInvalidJumpGadget::configure();
    let rws = vec![Rw::Stack {
        rw_counter: 1,
        is_write: false,
        call_id: 1,
        stack_pointer: 1023,
        value: Word::from_u64(1),
    }];
    let step = ExecStep { opcode: Some(JUMP), rw_indices: vec![0] };
    let call = Call { call_id: 1, is_root: true };
    let w = gadget.assign_exec_step(&rws, &call, &step, &code).0;
    assert_eq!(w.value, JUMPDEST);
    assert!(w.is_jump_dest);
    assert!(!w.is_code);
    assert!(gadget.check_witness(&w, &code));
}

#[test]
fn end_of_code_destination_fails_constraints() {
    let code = Bytecode::new(vec![JUMP, STOP]);
    let gadget = ErrorInvalidJumpGadget::configure();
    let rws = vec![Rw::Stack {
        rw_counter: 1,
        is_write: false,
        call_id: 1,
        stack_pointer: 1023,
        value: Word::from_u64(2),
    }];
    let step = ExecStep { opcode: Some(JUMP), rw_indices: vec![0] };
    let call = Call { call_id: 1, is_root: true };
    let w = gadget.assign_exec_step(&rws, &call, &step, &code).0;
    assert!(!w.out_of_range);
    assert!(!gadget.check_witness(&w, &code));
}

#[test]
fn root_transition_skips_reverted_writes() {
    let gadget = ErrorInvalidJumpGadget::configure();
    assert_eq!(gadget.rw_offset, 2);
    let mut curr = root_state(10);
    curr.reversible_write_counter = 3;
    let mut next = root_state(15);
    next.program_counter = 0;
    next.gas_left = 0;
    assert!(gadget.root_transition(&curr).check(&curr, &next));
    next.rw_counter = 14;
    assert!(!gadget.root_transition(&curr).check(&curr, &next));
}

#[test]
fn wrong_accesses_fail() {
    let (code, target) = invalid_jump_code(34, false);
    let gadget = ErrorInvalidJumpGadget::configure();
    let pop = Rw::Stack {
        rw_counter: 2,
        is_write: false,
        call_id: 1,
        stack_pointer: 1023,
        value: Word::from_u64(target),
    };
    let success = Rw::CallContext {
        rw_counter: 3,
        is_write: false,
        call_id: 1,
        field_tag: CallContextFieldTag::IsSuccess,
        value: Word::from_u64(1),
    };
    let rws = vec![pop, success];
    let step = ExecStep { opcode: Some(JUMP), rw_indices: vec![0, 1] };
    let call = Call { call_id: 1, is_root: true };
    let w = gadget.assign_exec_step(&rws, &call, &step, &code).0;
    assert!(!gadget.check_step(&root_state(2), &root_state(4), true, &code, &w, &pop, &success, &no_caller(), &vec![]));
    let success_ok = Rw::CallContext {
        rw_counter: 3,
        is_write: false,
        call_id: 1,
        field_tag: CallContextFieldTag::IsSuccess,
        value: Word::from_u64(0),
    };
    assert!(!gadget.check_step(&root_state(2), &root_state(4), false, &code, &w, &pop, &success_ok, &no_caller(), &vec![]));
    assert!(gadget.check_step(&root_state(2), &root_state(4), true, &code, &w, &pop, &success_ok, &no_caller(), &vec![]));
}

fn caller_reads(caller: &CallerContext, rw_counter: u64, call_id: u64) -> Vec<Rw> {
    let tags = [
        CallContextFieldTag::CallerId,
        CallContextFieldTag::IsRoot,
        CallContextFieldTag::ProgramCounter,
        CallContextFieldTag::StackPointer,
        CallContextFieldTag::GasLeft,
        CallContextFieldTag::MemorySize,
        CallContextFieldTag::ReversibleWriteCounter,
    ];
    let values = [
        caller.caller_id,
        caller.is_root as u64,
        caller.program_counter,
        caller.stack_pointer,
        caller.gas_left,
        caller.memory_word_size,
        caller.reversible_write_counter,
    ];
    let mut reads = Vec::new();
    for j in 0..7 {
        reads.push(Rw::CallContext {
            rw_counter: rw_counter + j as u64,
            is_write: false,
            call_id: if j == 0 { call_id } else { caller.caller_id },
            field_tag: tags[j],
            value: Word::from_u64(values[j]),
        });
    }
    reads
}

fn internal_call_case() -> (ErrorInvalidJumpGadget, StepState, Bytecode, InvalidJumpWitness, Rw, Rw, CallerContext, Vec<Rw>, Option<CallerContext>) {
    let (code, target) = invalid_jump_code(34, false);
    let gadget = ErrorInvalidJumpGadget::configure();
    let caller = CallerContext {
        caller_id: 1,
        is_root: true,
        program_counter: 70,
        stack_pointer: 1017,
        gas_left: 5000,
        memory_word_size: 3,
        reversible_write_counter: 4,
    };
    let mut curr = root_state(20);
    curr.call_id = 2;
    curr.is_root = false;
    curr.reversible_write_counter = 1;
    let pop = Rw::Stack { rw_counter: 20, is_write: false, call_id: 2, stack_pointer: 1023, value: Word::from_u64(target) };
    let success = Rw::CallContext {
        rw_counter: 21,
        is_write: false,
        call_id: 2,
        field_tag: CallContextFieldTag::IsSuccess,
        value: Word::from_u64(0),
    };
    let reads = caller_reads(&caller, 22, 2);
    let mut rws = vec![pop, success];
    rws.extend_from_slice(&reads);
    let step = ExecStep { opcode: Some(JUMP), rw_indices: (0..9).collect() };
    let call = Call { call_id: 2, is_root: false };
    let (w, assigned) = gadget.assign_exec_step(&rws, &call, &step, &code);
    (gadget, curr, code, w, pop, success, caller, reads, assigned)
}

fn resumed(caller: &CallerContext, rw_counter: u64) -> StepState {
    StepState {
        rw_counter,
        call_id: caller.caller_id,
        is_root: caller.is_root,
        program_counter: caller.program_counter,
        stack_pointer: caller.stack_pointer,
        gas_left: caller.gas_left,
        memory_word_size: caller.memory_word_size,
        reversible_write_counter: caller.reversible_write_counter,
        log_id: 0,
    }
}

#[test]
fn internal_call_assigns_caller_context() {
    let (_, _, _, _, _, _, caller, _, assigned) = internal_call_case();
    assert_eq!(assigned, Some(caller));
}

#[test]
fn internal_call_resumes_caller() {
    let (gadget, curr, code, w, pop, success, caller, reads, _) = internal_call_case();
    // 20 + 2 own accesses + 1 reverted write + 7 restore reads
    let next = resumed(&caller, 30);
    assert!(gadget.check_step(&curr, &next, false, &code, &w, &pop, &success, &caller, &reads));
    assert!(!gadget.check_step(&curr, &resumed(&caller, 29), false, &code, &w, &pop, &success, &caller, &reads));
    let mut wrong_pc = next;
    wrong_pc.program_counter = 71;
    assert!(!gadget.check_step(&curr, &wrong_pc, false, &code, &w, &pop, &success, &caller, &reads));
    assert!(!gadget.check_step(&curr, &next, true, &code, &w, &pop, &success, &caller, &reads));
}

#[test]
fn internal_call_rejects_wrong_reads() {
    let (gadget, curr, code, w, pop, success, caller, mut reads, _) = internal_call_case();
    let next = resumed(&caller, 30);
    reads.pop();
    assert!(!gadget.check_step(&curr, &next, false, &code, &w, &pop, &success, &caller, &reads));
    let other = CallerContext { gas_left: 4999, ..caller };
    let reads = caller_reads(&other, 22, 2);
    assert!(!gadget.check_step(&curr, &next, false, &code, &w, &pop, &success, &caller, &reads));
}

#[test]
fn root_call_assigns_no_caller() {
    let (code, target) = invalid_jump_code(40, true);
    let gadget = ErrorInvalidJumpGadget::configure();
    let rws = vec![Rw::Stack { rw_counter: 2, is_write: false, call_id: 1, stack_pointer: 1023, value: Word::from_u64(target) }];
    let step = ExecStep { opcode: Some(JUMP), rw_indices: vec![0] };
    let call = Call { call_id: 1, is_root: true };
    assert_eq!(gadget.assign_exec_step(&rws, &call, &step, &code).1, None);
}
