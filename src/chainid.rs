//! The gadget for CHAINID, which pushes the block's chain id on the stack.
use vstd::prelude::*;
use crate::bytecode::{is_code_at, Bytecode};
use crate::opcode::{chainid_gas_cost, CHAINID, GAS_QUICK_STEP};
use crate::step::{StepState, StepStateTransition, Transition};
use crate::witness::{first_rw_is_stack, first_rw_value, first_stack_value, ExecStep, Rw};
use crate::word::Word;

verus! {

/// One more state access, the next opcode, one more stack item and the
/// instruction's gas; the rest of the state is kept.
pub open spec fn chainid_transition() -> StepStateTransition {
    StepStateTransition {
        rw_counter: Transition::Delta(1),
        program_counter: Transition::Delta(1),
        stack_pointer: Transition::Delta(-1i64),
        gas_left: Transition::Delta((0 - GAS_QUICK_STEP) as i64),
        ..StepStateTransition::same_spec()
    }
}

/// Execution gadget for CHAINID.
#[derive(Clone, Copy, Debug, PartialEq, Eq, Structural)]
pub struct ChainIdGadget {
    pub transition: StepStateTransition,
}

impl ChainIdGadget {
    pub fn configure() -> (g: ChainIdGadget)
        ensures
            g.transition == chainid_transition(),
    {
        let cost = chainid_gas_cost();
        let mut transition = StepStateTransition::same();
        transition.rw_counter = Transition::Delta(1);
        transition.program_counter = Transition::Delta(1);
        transition.stack_pointer = Transition::Delta(-1);
        transition.gas_left = Transition::Delta(-(cost as i64));
        ChainIdGadget { transition }
    }

    /// The constraints of a step that stays in the same call: the byte at
    /// the program counter is the CHAINID opcode, the gas suffices, and the
    /// next state stays in the same call and follows the transition.
    pub open spec fn same_context_holds(self, curr: StepState, next: StepState, code: Seq<u8>) -> bool {
        &&& next.is_root == curr.is_root
        &&& (curr.program_counter as nat) < code.len()
        &&& code[curr.program_counter as int] == CHAINID
        &&& is_code_at(code, curr.program_counter as nat)
        &&& curr.gas_left >= GAS_QUICK_STEP
        &&& self.transition.allows(curr, next)
    }

    /// The constraints of a CHAINID step: those of `same_context_holds`, a
    /// push of `chain_id` below the current stack pointer, and `chain_id`
    /// equal to the block's chain id.
    pub open spec fn step_holds(
        self,
        curr: StepState,
        next: StepState,
        code: Seq<u8>,
        chain_id: Word,
        push: Rw,
        block_chain_id: u64,
    ) -> bool {
        &&& self.same_context_holds(curr, next, code)
        &&& push == Rw::Stack {
            rw_counter: curr.rw_counter,
            is_write: true,
            call_id: curr.call_id,
            stack_pointer: (curr.stack_pointer - 1) as u64,
            value: chain_id,
        }
        &&& curr.stack_pointer >= 1
        &&& chain_id.lo == block_chain_id as u128
        &&& chain_id.hi == 0
    }

    /// Executable form of `step_holds`.
    pub fn check_step(
        &self,
        curr: &StepState,
        next: &StepState,
        code: &Bytecode,
        chain_id: Word,
        push: &Rw,
        block_chain_id: u64,
    ) -> (r: bool)
        ensures
            r == self.step_holds(*curr, *next, code.bytes@, chain_id, *push, block_chain_id),
    {
        if curr.program_counter >= code.len() as u64 {
            return false;
        }
        let (byte, is_code) = code.get(curr.program_counter as usize);
        if byte != CHAINID || !is_code || curr.gas_left < chainid_gas_cost() {
            return false;
        }
        if next.is_root != curr.is_root || !self.transition.check(curr, next) || curr.stack_pointer < 1 {
            return false;
        }
        let expected = Rw::Stack {
            rw_counter: curr.rw_counter,
            is_write: true,
            call_id: curr.call_id,
            stack_pointer: curr.stack_pointer - 1,
            value: chain_id,
        };
        *push == expected && chain_id.lo == block_chain_id as u128 && chain_id.hi == 0
    }

    /// The chain id cell's value: the word the step pushed, read from the
    /// trace.
    pub fn assign_exec_step(&self, rws: &Vec<Rw>, step: &ExecStep) -> (chain_id: Word)
        requires
            first_rw_is_stack(rws@, *step),
        ensures
            chain_id == first_rw_value(rws@, *step),
    {
        first_stack_value(rws, step)
    }
}

} // verus!
