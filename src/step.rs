//! Execution-step state and the transitions a gadget imposes on it.
use vstd::prelude::*;

verus! {

/// The counters carried from one execution step to the next.
#[derive(Clone, Copy, Debug, PartialEq, Eq, Structural)]
pub struct StepState {
    pub rw_counter: u64,
    pub call_id: u64,
    pub is_root: bool,
    pub program_counter: u64,
    pub stack_pointer: u64,
    pub gas_left: u64,
    pub memory_word_size: u64,
    pub reversible_write_counter: u64,
    pub log_id: u64,
}

/// How one counter of the next step relates to the current one.
#[derive(Clone, Copy, Debug, PartialEq, Eq, Structural)]
pub enum Transition {
    /// The value is kept.
    Same,
    /// The value changes by the given amount.
    Delta(i64),
    /// The value becomes the given one.
    To(u64),
    /// The value is not constrained.
    Any,
}

impl Transition {
    /// Whether going from `curr` to `next` obeys the transition.
    pub open spec fn allows(self, curr: u64, next: u64) -> bool {
        match self {
            Transition::Same => next == curr,
            Transition::Delta(d) => next as int == curr as int + d as int,
            Transition::To(v) => next == v,
            Transition::Any => true,
        }
    }

    pub fn check(&self, curr: u64, next: u64) -> (r: bool)
        ensures
            r == self.allows(curr, next),
    {
        match self {
            Transition::Same => next == curr,
            Transition::Delta(d) => next as i128 == curr as i128 + *d as i128,
            Transition::To(v) => next == *v,
            Transition::Any => true,
        }
    }
}

/// One transition per counter of `StepState`. `is_root` is not a counter:
/// each gadget states its own constraint on it.
#[derive(Clone, Copy, Debug, PartialEq, Eq, Structural)]
pub struct StepStateTransition {
    pub rw_counter: Transition,
    pub call_id: Transition,
    pub program_counter: Transition,
    pub stack_pointer: Transition,
    pub gas_left: Transition,
    pub memory_word_size: Transition,
    pub reversible_write_counter: Transition,
    pub log_id: Transition,
}

impl StepStateTransition {
    /// The transition that keeps every counter.
    pub fn same() -> (t: StepStateTransition)
        ensures
            t == StepStateTransition::same_spec(),
    {
        StepStateTransition {
            rw_counter: Transition::Same,
            call_id: Transition::Same,
            program_counter: Transition::Same,
            stack_pointer: Transition::Same,
            gas_left: Transition::Same,
            memory_word_size: Transition::Same,
            reversible_write_counter: Transition::Same,
            log_id: Transition::Same,
        }
    }

    pub open spec fn same_spec() -> StepStateTransition {
        StepStateTransition {
            rw_counter: Transition::Same,
            call_id: Transition::Same,
            program_counter: Transition::Same,
            stack_pointer: Transition::Same,
            gas_left: Transition::Same,
            memory_word_size: Transition::Same,
            reversible_write_counter: Transition::Same,
            log_id: Transition::Same,
        }
    }

    /// The transition that constrains no counter.
    pub fn any() -> (t: StepStateTransition)
        ensures
            t == StepStateTransition::any_spec(),
    {
        StepStateTransition {
            rw_counter: Transition::Any,
            call_id: Transition::Any,
            program_counter: Transition::Any,
            stack_pointer: Transition::Any,
            gas_left: Transition::Any,
            memory_word_size: Transition::Any,
            reversible_write_counter: Transition::Any,
            log_id: Transition::Any,
        }
    }

    pub open spec fn any_spec() -> StepStateTransition {
        StepStateTransition {
            rw_counter: Transition::Any,
            call_id: Transition::Any,
            program_counter: Transition::Any,
            stack_pointer: Transition::Any,
            gas_left: Transition::Any,
            memory_word_size: Transition::Any,
            reversible_write_counter: Transition::Any,
            log_id: Transition::Any,
        }
    }

    /// Whether the step `next` may follow `curr` under this transition.
    pub open spec fn allows(self, curr: StepState, next: StepState) -> bool {
        &&& self.rw_counter.allows(curr.rw_counter, next.rw_counter)
        &&& self.call_id.allows(curr.call_id, next.call_id)
        &&& self.program_counter.allows(curr.program_counter, next.program_counter)
        &&& self.stack_pointer.allows(curr.stack_pointer, next.stack_pointer)
        &&& self.gas_left.allows(curr.gas_left, next.gas_left)
        &&& self.memory_word_size.allows(curr.memory_word_size, next.memory_word_size)
        &&& self.reversible_write_counter.allows(
            curr.reversible_write_counter,
            next.reversible_write_counter,
        )
        &&& self.log_id.allows(curr.log_id, next.log_id)
    }

    pub fn check(&self, curr: &StepState, next: &StepState) -> (r: bool)
        ensures
            r == self.allows(*curr, *next),
    {
        self.rw_counter.check(curr.rw_counter, next.rw_counter)
            && self.call_id.check(curr.call_id, next.call_id)
            && self.program_counter.check(curr.program_counter, next.program_counter)
            && self.stack_pointer.check(curr.stack_pointer, next.stack_pointer)
            && self.gas_left.check(curr.gas_left, next.gas_left)
            && self.memory_word_size.check(curr.memory_word_size, next.memory_word_size)
            && self.reversible_write_counter.check(
            curr.reversible_write_counter,
            next.reversible_write_counter,
        ) && self.log_id.check(curr.log_id, next.log_id)
    }
}

} // verus!
