use zkevm_circuits::bytecode::Bytecode;
use zkevm_circuits::chainid::ChainIdGadget;
use zkevm_circuits::opcode::{CHAINID, STOP};
use zkevm_circuits::step::{StepState, Transition};
use zkevm_circuits::witness::{ExecStep, Rw};
use zkevm_circuits::word::Word;

fn state(rw_counter: u64, program_counter: u64, stack_pointer: u64, gas_left: u64) -> StepState {
    StepState {
        rw_counter,
        call_id: 1,
        is_root: true,
        program_counter,
        stack_pointer,
        gas_left,
        memory_word_size: 0,
        reversible_write_counter: 0,
        log_id: 0,
    }
}

fn push_of(value: Word) -> Rw {
    Rw::Stack { rw_counter: 1, is_write: true, call_id: 1, stack_pointer: 1023, value }
}

#[test]
fn chainid_gadget_test() {
    let code = Bytecode::new(vec![CHAINID, STOP]);
    let gadget = ChainIdGadget::configure();
    let chain_id = Word::from_u64(1338);
    let rws = vec![push_of(chain_id)];
    let step = ExecStep { opcode: Some(CHAINID), rw_indices: vec![0] };
    let assigned = gadget.assign_exec_step(&rws, &step);
    assert_eq!(assigned, chain_id);
    let curr = state(1, 0, 1024, 100);
    let next = state(2, 1, 1023, 98);
    assert!(gadget.check_step(&curr, &next, &code, assigned, &rws[0], 1338));
}

#[test]
fn chainid_transition_values() {
    let gadget = ChainIdGadget::configure();
    assert_eq!(gadget.transition.rw_counter, Transition::Delta(1));
    assert_eq!(gadget.transition.program_counter, Transition::Delta(1));
    assert_eq!(gadget.transition.stack_pointer, Transition::Delta(-1));
    assert_eq!(gadget.transition.gas_left, Transition::Delta(-2));
    assert_eq!(gadget.transition.call_id, Transition::Same);
}

#[test]
fn chainid_rejects_wrong_chain_id() {
    let code = Bytecode::new(vec![CHAINID, STOP]);
    let gadget = ChainIdGadget::configure();
    let chain_id = Word::from_u64(1338);
    let curr = state(1, 0, 1024, 100);
    let next = state(2, 1, 1023, 98);
    assert!(!gadget.check_step(&curr, &next, &code, chain_id, &push_of(chain_id), 1));
}

#[test]
fn chainid_rejects_short_gas_and_bad_transition() {
    let code = Bytecode::new(vec![CHAINID, STOP]);
    let gadget = ChainIdGadget::configure();
    let chain_id = Word::from_u64(7);
    let push = push_of(chain_id);
    assert!(!gadget.check_step(&state(1, 0, 1024, 1), &state(2, 1, 1023, 0), &code, chain_id, &push, 7));
    assert!(!gadget.check_step(&state(1, 0, 1024, 100), &state(2, 1, 1023, 97), &code, chain_id, &push, 7));
    assert!(!gadget.check_step(&state(1, 0, 1024, 100), &state(2, 2, 1023, 98), &code, chain_id, &push, 7));
}

#[test]
fn chainid_rejects_other_opcode() {
    let code = Bytecode::new(vec![STOP, CHAINID]);
    let gadget = ChainIdGadget::configure();
    let chain_id = Word::from_u64(7);
    assert!(!gadget.check_step(&state(1, 0, 1024, 100), &state(2, 1, 1023, 98), &code, chain_id, &push_of(chain_id), 7));
}

#[test]
fn chainid_rejects_nonzero_high_half() {
    let code = Bytecode::new(vec![CHAINID, STOP]);
    let gadget = ChainIdGadget::configure();
    let chain_id = Word { lo: 7, hi: 5 };
    assert!(!gadget.check_step(&state(1, 0, 1024, 100), &state(2, 1, 1023, 98), &code, chain_id, &push_of(chain_id), 7));
}

#[test]
fn chainid_keeps_root_flag() {
    let code = Bytecode::new(vec![CHAINID, STOP]);
    let gadget = ChainIdGadget::configure();
    let chain_id = Word::from_u64(7);
    let mut next = state(2, 1, 1023, 98);
    next.is_root = false;
    assert!(!gadget.check_step(&state(1, 0, 1024, 100), &next, &code, chain_id, &push_of(chain_id), 7));
}
