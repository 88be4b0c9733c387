//! The parts of an execution trace that the gadgets read.
use vstd::prelude::*;
use crate::word::Word;

verus! {

/// Fields of a call's context that a step may read or write.
#[derive(Clone, Copy, Debug, PartialEq, Eq, Structural)]
pub enum CallContextFieldTag {
    CallerId,
    IsRoot,
    IsSuccess,
    ProgramCounter,
    StackPointer,
    GasLeft,
    MemorySize,
    ReversibleWriteCounter,
}

/// One read or write of EVM state.
#[derive(Clone, Copy, Debug, PartialEq, Eq, Structural)]
pub enum Rw {
    Stack { rw_counter: u64, is_write: bool, call_id: u64, stack_pointer: u64, value: Word },
    CallContext {
        rw_counter: u64,
        is_write: bool,
        call_id: u64,
        field_tag: CallContextFieldTag,
        value: Word,
    },
}

impl Rw {
    pub open spec fn is_stack(self) -> bool {
        self is Stack
    }

    pub open spec fn value_spec(self) -> Word {
        match self {
            Rw::Stack { value, .. } => value,
            Rw::CallContext { value, .. } => value,
        }
    }

    /// The value of a stack operation.
    pub fn stack_value(&self) -> (r: Word)
        requires
            self.is_stack(),
        ensures
            r == self.value_spec(),
    {
        match self {
            Rw::Stack { value, .. } => *value,
            Rw::CallContext { value, .. } => *value,
        }
    }
}

/// One step of the trace: the opcode it runs and where its state accesses
/// stand in the trace's list of reads and writes.
#[derive(Clone, Debug)]
pub struct ExecStep {
    pub opcode: Option<u8>,
    pub rw_indices: Vec<usize>,
}

/// The call a step runs in.
#[derive(Clone, Copy, Debug, PartialEq, Eq, Structural)]
pub struct Call {
    pub call_id: u64,
    pub is_root: bool,
}

/// Whether the step's first state access is a stack operation of the trace.
pub open spec fn first_rw_is_stack(rws: Seq<Rw>, step: ExecStep) -> bool {
    &&& step.rw_indices@.len() >= 1
    &&& step.rw_indices@[0] < rws.len()
    &&& rws[step.rw_indices@[0] as int].is_stack()
}

/// The value of the step's first state access.
pub open spec fn first_rw_value(rws: Seq<Rw>, step: ExecStep) -> Word {
    rws[step.rw_indices@[0] as int].value_spec()
}

/// The value of the step's first state access, which must be a stack
/// operation.
pub fn first_stack_value(rws: &Vec<Rw>, step: &ExecStep) -> (r: Word)
    requires
        first_rw_is_stack(rws@, *step),
    ensures
        r == first_rw_value(rws@, *step),
{
    rws[step.rw_indices[0]].stack_value()
}

} // verus!
