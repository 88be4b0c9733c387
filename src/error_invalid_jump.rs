//! The gadget for a JUMP or JUMPI whose destination is not a JUMPDEST
//! opcode of the running code.
use vstd::prelude::*;
use crate::bytecode::{is_code_at, Bytecode};
use crate::opcode::JUMPDEST;
use crate::restore_context::{
    assign_caller_context, caller_from_trace, check_restore_reads, check_restore_transition,
    restore_reads_hold, restore_reads_present, restore_transition_holds, CallerContext,
};
use crate::step::{StepState, StepStateTransition, Transition};
use crate::witness::{
    first_rw_is_stack, first_rw_value, first_stack_value, Call, CallContextFieldTag, ExecStep, Rw,
};
use crate::word::Word;

verus! {

/// Whether `dest` is a position the code may jump to: inside the code, a
/// JUMPDEST byte, and an opcode rather than push data.
pub open spec fn is_valid_jump_dest(code: Seq<u8>, dest: nat) -> bool {
    &&& dest < code.len()
    &&& code[dest as int] == JUMPDEST
    &&& is_code_at(code, dest)
}

/// The values the gadget places in its cells for one step.
#[derive(Clone, Copy, Debug, PartialEq, Eq, Structural)]
pub struct InvalidJumpWitness {
    pub opcode: u8,
    pub destination: u64,
    pub code_length: u64,
    /// The byte at the destination, zero outside the code.
    pub value: u8,
    /// Whether the byte at the destination is an opcode, false outside the
    /// code.
    pub is_code: bool,
    pub is_jump_dest: bool,
    /// Whether the destination lies beyond the code's length.
    pub out_of_range: bool,
}

/// The cell values assigned for a jump to `dest` in `code`.
pub open spec fn assigned_witness(opcode: u8, code: Seq<u8>, dest: u64) -> InvalidJumpWitness {
    let in_range = (dest as nat) < code.len();
    let value: u8 = if in_range {
        code[dest as int]
    } else {
        0
    };
    InvalidJumpWitness {
        opcode,
        destination: dest,
        code_length: code.len() as u64,
        value,
        is_code: in_range && is_code_at(code, dest as nat),
        is_jump_dest: value == JUMPDEST,
        out_of_range: code.len() < dest as nat,
    }
}

/// Execution gadget for the invalid-jump error.
#[derive(Clone, Copy, Debug, PartialEq, Eq, Structural)]
pub struct ErrorInvalidJumpGadget {
    /// State accesses the step makes itself: the destination's stack pop
    /// and the read of the call's success flag.
    pub rw_offset: u64,
}

impl ErrorInvalidJumpGadget {
    pub fn configure() -> (g: ErrorInvalidJumpGadget)
        ensures
            g.rw_offset == 2,
    {
        ErrorInvalidJumpGadget { rw_offset: 2 }
    }

    /// The relations the gadget's constraints impose on its cells.
    pub open spec fn witness_holds(self, w: InvalidJumpWitness, code: Seq<u8>) -> bool {
        &&& w.code_length as nat == code.len()
        &&& w.is_jump_dest == (w.value == JUMPDEST)
        &&& w.out_of_range == (w.code_length < w.destination)
        &&& !w.out_of_range ==> {
            &&& (w.destination as nat) < code.len()
            &&& code[w.destination as int] == w.value
            &&& w.is_code == is_code_at(code, w.destination as nat)
            &&& !(w.is_code && w.is_jump_dest)
        }
    }

    /// Executable form of `witness_holds`.
    pub fn check_witness(&self, w: &InvalidJumpWitness, code: &Bytecode) -> (r: bool)
        ensures
            r == self.witness_holds(*w, code.bytes@),
    {
        if w.code_length != code.len() as u64 {
            return false;
        }
        if w.is_jump_dest != (w.value == JUMPDEST) {
            return false;
        }
        if w.out_of_range != (w.code_length < w.destination) {
            return false;
        }
        if w.out_of_range {
            return true;
        }
        if w.destination >= w.code_length {
            return false;
        }
        let (byte, is_code) = code.get(w.destination as usize);
        byte == w.value && is_code == w.is_code && !(w.is_code && w.is_jump_dest)
    }

    /// The state accesses the step must make: pop the destination at the
    /// current stack pointer, then read a false success flag of the call.
    pub open spec fn accesses_hold(
        self,
        curr: StepState,
        w: InvalidJumpWitness,
        pop: Rw,
        success: Rw,
    ) -> bool {
        &&& match pop {
            Rw::Stack { rw_counter, is_write, call_id, stack_pointer, value } => {
                &&& rw_counter == curr.rw_counter
                &&& !is_write
                &&& call_id == curr.call_id
                &&& stack_pointer == curr.stack_pointer
                &&& value.value() == w.destination as nat
            },
            _ => false,
        }
        &&& match success {
            Rw::CallContext { rw_counter, is_write, call_id, field_tag, value } => {
                &&& rw_counter as int == curr.rw_counter as int + 1
                &&& !is_write
                &&& call_id == curr.call_id
                &&& field_tag == CallContextFieldTag::IsSuccess
                &&& value.value() == 0
            },
            _ => false,
        }
    }

    /// Executable form of `accesses_hold`.
    pub fn check_accesses(&self, curr: &StepState, w: &InvalidJumpWitness, pop: &Rw, success: &Rw) -> (r: bool)
        ensures
            r == self.accesses_hold(*curr, *w, *pop, *success),
    {
        let pop_ok = match pop {
            Rw::Stack { rw_counter, is_write, call_id, stack_pointer, value } => {
                *rw_counter == curr.rw_counter && !*is_write && *call_id == curr.call_id
                    && *stack_pointer == curr.stack_pointer && value.hi == 0
                    && value.lo == w.destination as u128
            },
            _ => false,
        };
        let success_ok = match success {
            Rw::CallContext { rw_counter, is_write, call_id, field_tag, value } => {
                *rw_counter as u128 == curr.rw_counter as u128 + 1 && !*is_write && *call_id
                    == curr.call_id && *field_tag == CallContextFieldTag::IsSuccess && value.hi
                    == 0 && value.lo == 0
            },
            _ => false,
        };
        proof {
            crate::word::lemma_value_zero_hi(pop.value_spec());
            crate::word::lemma_value_zero_hi(success.value_spec());
        }
        pop_ok && success_ok
    }

    /// The transition of a root call, which ends the transaction: the
    /// counter of state accesses skips this step's own accesses and the
    /// reverted writes.
    pub open spec fn root_transition_spec(self, curr: StepState) -> StepStateTransition {
        StepStateTransition {
            rw_counter: Transition::Delta(
                (self.rw_offset + curr.reversible_write_counter) as i64,
            ),
            call_id: Transition::Same,
            ..StepStateTransition::any_spec()
        }
    }

    pub fn root_transition(&self, curr: &StepState) -> (t: StepStateTransition)
        requires
            self.rw_offset + curr.reversible_write_counter <= i64::MAX,
        ensures
            t == self.root_transition_spec(*curr),
    {
        let mut t = StepStateTransition::any();
        t.rw_counter = Transition::Delta((self.rw_offset + curr.reversible_write_counter) as i64);
        t.call_id = Transition::Same;
        t
    }

    /// Whether a step of this gadget is consistent: its cells, its state
    /// accesses, and a next step that ends the transaction exactly for a
    /// root call. A root call follows `root_transition_spec`; an internal
    /// call reads its caller's context `caller` through `reads` and resumes
    /// it.
    pub open spec fn step_holds(
        self,
        curr: StepState,
        next: StepState,
        next_is_end_tx: bool,
        code: Seq<u8>,
        w: InvalidJumpWitness,
        pop: Rw,
        success: Rw,
        caller: CallerContext,
        reads: Seq<Rw>,
    ) -> bool {
        &&& self.witness_holds(w, code)
        &&& self.accesses_hold(curr, w, pop, success)
        &&& next_is_end_tx == curr.is_root
        &&& curr.is_root ==> self.root_transition_spec(curr).allows(curr, next)
        &&& !curr.is_root ==> {
            &&& restore_reads_hold(curr, caller, self.rw_offset, reads)
            &&& restore_transition_holds(curr, next, caller, self.rw_offset)
        }
    }

    /// Executable form of `step_holds`.
    pub fn check_step(
        &self,
        curr: &StepState,
        next: &StepState,
        next_is_end_tx: bool,
        code: &Bytecode,
        w: &InvalidJumpWitness,
        pop: &Rw,
        success: &Rw,
        caller: &CallerContext,
        reads: &Vec<Rw>,
    ) -> (r: bool)
        requires
            curr.is_root ==> self.rw_offset + curr.reversible_write_counter <= i64::MAX,
        ensures
            r == self.step_holds(
                *curr,
                *next,
                next_is_end_tx,
                code.bytes@,
                *w,
                *pop,
                *success,
                *caller,
                reads@,
            ),
    {
        if !self.check_witness(w, code) || !self.check_accesses(curr, w, pop, success) {
            return false;
        }
        if next_is_end_tx != curr.is_root {
            return false;
        }
        if curr.is_root {
            self.root_transition(curr).check(curr, next)
        } else {
            check_restore_reads(curr, caller, self.rw_offset, reads)
                && check_restore_transition(curr, next, caller, self.rw_offset)
        }
    }

    /// The cell values for a step: the opcode, the destination popped from
    /// the stack, and the byte found there in the running code; for an
    /// internal call also the caller's context, read from the trace after
    /// the step's own accesses.
    pub fn assign_exec_step(&self, rws: &Vec<Rw>, call: &Call, step: &ExecStep, code: &Bytecode) -> (r: (InvalidJumpWitness, Option<CallerContext>))
        requires
            step.opcode is Some,
            first_rw_is_stack(rws@, *step),
            first_rw_value(rws@, *step).value() <= u64::MAX as nat,
            code.bytes@.len() <= u64::MAX as nat,
            !call.is_root ==> restore_reads_present(rws@, *step, self.rw_offset),
        ensures
            r.0 == assigned_witness(step.opcode->0, code.bytes@, first_rw_value(rws@, *step).value() as u64),
            r.1 == if call.is_root {
                None
            } else {
                Some(caller_from_trace(rws@, *step, self.rw_offset))
            },
    {
        let opcode = match step.opcode {
            Some(op) => op,
            None => 0,
        };
        let destination = first_stack_value(rws, step).as_u64();
        let code_length = code.len() as u64;
        let mut value: u8 = 0;
        let mut is_code = false;
        if destination < code_length {
            let pair = code.get(destination as usize);
            value = pair.0;
            is_code = pair.1;
        }
        let w = InvalidJumpWitness {
            opcode,
            destination,
            code_length,
            value,
            is_code,
            is_jump_dest: value == JUMPDEST,
            out_of_range: code_length < destination,
        };
        let caller = if call.is_root {
            None
        } else {
            Some(assign_caller_context(rws, step, self.rw_offset))
        };
        (w, caller)
    }
}

} // verus!

verus! {

/// Soundness of the gadget: cell values that meet its constraints never
/// describe a jump to a valid destination.
pub proof fn lemma_witness_excludes_valid_jump(
    g: ErrorInvalidJumpGadget,
    w: InvalidJumpWitness,
    code: Seq<u8>,
)
    requires
        g.witness_holds(w, code),
    ensures
        !is_valid_jump_dest(code, w.destination as nat),
{
}

/// Completeness of the assignment: for a jump to an invalid destination
/// other than the position just past the code, the assigned cell values
/// meet the gadget's constraints.
pub proof fn lemma_assigned_witness_holds(
    g: ErrorInvalidJumpGadget,
    opcode: u8,
    code: Seq<u8>,
    dest: u64,
)
    requires
        code.len() <= u64::MAX as nat,
        dest as nat != code.len(),
        !is_valid_jump_dest(code, dest as nat),
    ensures
        g.witness_holds(assigned_witness(opcode, code, dest), code),
{
}

/// A jump to the position just past the code gets cell values that fail
/// the constraints: the destination is not out of range, yet no byte of the
/// code stands there.
pub proof fn lemma_end_of_code_witness_fails(
    g: ErrorInvalidJumpGadget,
    opcode: u8,
    code: Seq<u8>,
)
    requires
        code.len() <= u64::MAX as nat,
    ensures
        !g.witness_holds(assigned_witness(opcode, code, code.len() as u64), code),
{
}

} // verus!

verus! {

/// A JUMPDEST byte inside an opcode's push data is no valid destination.
pub proof fn lemma_push_data_never_valid_dest(code: Seq<u8>, i: nat, k: nat)
    requires
        i < code.len(),
        is_code_at(code, i),
        1 <= k <= crate::opcode::push_size(code[i as int]),
    ensures
        !is_valid_jump_dest(code, i + k),
{
    crate::bytecode::lemma_push_data_not_code(code, i, k);
}

} // verus!
