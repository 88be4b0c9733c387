//! Ending an internal call: the caller's saved context becomes the next
//! step's state.
use vstd::prelude::*;
use crate::step::StepState;
use crate::witness::{CallContextFieldTag, ExecStep, Rw};
use crate::word::Word;

verus! {

/// Reads of call context the restore makes: the caller's id from the
/// ending call, then the caller's six saved fields.
pub const RESTORE_CONTEXT_READS: u64 = 7;

/// The caller's context as saved when it made the call.
#[derive(Clone, Copy, Debug, PartialEq, Eq, Structural)]
pub struct CallerContext {
    pub caller_id: u64,
    pub is_root: bool,
    pub program_counter: u64,
    pub stack_pointer: u64,
    pub gas_left: u64,
    pub memory_word_size: u64,
    pub reversible_write_counter: u64,
}

/// The field of the `j`-th read.
pub open spec fn restore_field_tag(j: int) -> CallContextFieldTag {
    if j == 0 {
        CallContextFieldTag::CallerId
    } else if j == 1 {
        CallContextFieldTag::IsRoot
    } else if j == 2 {
        CallContextFieldTag::ProgramCounter
    } else if j == 3 {
        CallContextFieldTag::StackPointer
    } else if j == 4 {
        CallContextFieldTag::GasLeft
    } else if j == 5 {
        CallContextFieldTag::MemorySize
    } else {
        CallContextFieldTag::ReversibleWriteCounter
    }
}

/// The value the `j`-th read returns.
pub open spec fn restore_field_value(c: CallerContext, j: int) -> nat {
    if j == 0 {
        c.caller_id as nat
    } else if j == 1 {
        if c.is_root {
            1
        } else {
            0
        }
    } else if j == 2 {
        c.program_counter as nat
    } else if j == 3 {
        c.stack_pointer as nat
    } else if j == 4 {
        c.gas_left as nat
    } else if j == 5 {
        c.memory_word_size as nat
    } else {
        c.reversible_write_counter as nat
    }
}

/// The `j`-th read of the restore, made after the step's own `rw_offset`
/// accesses: the caller's id from the ending call, the rest from the
/// caller's context.
pub open spec fn restore_read_holds(
    curr: StepState,
    c: CallerContext,
    rw_offset: u64,
    j: int,
    r: Rw,
) -> bool {
    match r {
        Rw::CallContext { rw_counter, is_write, call_id, field_tag, value } => {
            &&& rw_counter as int == curr.rw_counter as int + rw_offset as int + j
            &&& !is_write
            &&& call_id == if j == 0 {
                curr.call_id
            } else {
                c.caller_id
            }
            &&& field_tag == restore_field_tag(j)
            &&& value.value() == restore_field_value(c, j)
        },
        _ => false,
    }
}

/// All reads of the restore, in order.
pub open spec fn restore_reads_hold(
    curr: StepState,
    c: CallerContext,
    rw_offset: u64,
    reads: Seq<Rw>,
) -> bool {
    &&& reads.len() == RESTORE_CONTEXT_READS
    &&& forall|j: int|
        0 <= j < reads.len() ==> restore_read_holds(curr, c, rw_offset, j, #[trigger] reads[j])
}

/// The next step resumes the caller: its call, root flag, program counter,
/// stack pointer, gas, memory size and reversible writes. The failed call
/// hands back no gas, and the counter of state accesses skips the step's
/// own accesses, the reverted writes and the restore's reads.
pub open spec fn restore_transition_holds(
    curr: StepState,
    next: StepState,
    c: CallerContext,
    rw_offset: u64,
) -> bool {
    &&& next.rw_counter as int == curr.rw_counter as int + rw_offset as int
        + curr.reversible_write_counter as int + RESTORE_CONTEXT_READS as int
    &&& next.call_id == c.caller_id
    &&& next.is_root == c.is_root
    &&& next.program_counter == c.program_counter
    &&& next.stack_pointer == c.stack_pointer
    &&& next.gas_left == c.gas_left
    &&& next.memory_word_size == c.memory_word_size
    &&& next.reversible_write_counter == c.reversible_write_counter
}

/// Executable form of `restore_read_holds`.
pub fn check_restore_read(curr: &StepState, c: &CallerContext, rw_offset: u64, j: u64, r: &Rw) -> (ok: bool)
    requires
        j < RESTORE_CONTEXT_READS,
    ensures
        ok == restore_read_holds(*curr, *c, rw_offset, j as int, *r),
{
    let (tag, v): (CallContextFieldTag, u64) = if j == 0 {
        (CallContextFieldTag::CallerId, c.caller_id)
    } else if j == 1 {
        (CallContextFieldTag::IsRoot, if c.is_root { 1 } else { 0 })
    } else if j == 2 {
        (CallContextFieldTag::ProgramCounter, c.program_counter)
    } else if j == 3 {
        (CallContextFieldTag::StackPointer, c.stack_pointer)
    } else if j == 4 {
        (CallContextFieldTag::GasLeft, c.gas_left)
    } else if j == 5 {
        (CallContextFieldTag::MemorySize, c.memory_word_size)
    } else {
        (CallContextFieldTag::ReversibleWriteCounter, c.reversible_write_counter)
    };
    let expected_call = if j == 0 {
        curr.call_id
    } else {
        c.caller_id
    };
    match r {
        Rw::CallContext { rw_counter, is_write, call_id, field_tag, value } => {
            proof {
                crate::word::lemma_value_zero_hi(*value);
            }
            *rw_counter as u128 == curr.rw_counter as u128 + rw_offset as u128 + j as u128
                && !*is_write && *call_id == expected_call && *field_tag == tag && value.hi == 0
                && value.lo == v as u128
        },
        _ => false,
    }
}

/// Executable form of `restore_reads_hold`.
pub fn check_restore_reads(curr: &StepState, c: &CallerContext, rw_offset: u64, reads: &Vec<Rw>) -> (ok: bool)
    ensures
        ok == restore_reads_hold(*curr, *c, rw_offset, reads@),
{
    if reads.len() as u64 != RESTORE_CONTEXT_READS {
        return false;
    }
    let mut j: usize = 0;
    while j < reads.len()
        invariant
            reads@.len() == RESTORE_CONTEXT_READS,
            j <= reads@.len(),
            forall|i: int| 0 <= i < j ==> restore_read_holds(*curr, *c, rw_offset, i, #[trigger] reads@[i]),
        decreases reads@.len() - j,
    {
        if !check_restore_read(curr, c, rw_offset, j as u64, &reads[j]) {
            return false;
        }
        j = j + 1;
    }
    true
}

/// Executable form of `restore_transition_holds`.
pub fn check_restore_transition(curr: &StepState, next: &StepState, c: &CallerContext, rw_offset: u64) -> (ok: bool)
    ensures
        ok == restore_transition_holds(*curr, *next, *c, rw_offset),
{
    next.rw_counter as u128 == curr.rw_counter as u128 + rw_offset as u128
        + curr.reversible_write_counter as u128 + RESTORE_CONTEXT_READS as u128
        && next.call_id == c.caller_id && next.is_root == c.is_root && next.program_counter
        == c.program_counter && next.stack_pointer == c.stack_pointer && next.gas_left
        == c.gas_left && next.memory_word_size == c.memory_word_size
        && next.reversible_write_counter == c.reversible_write_counter
}

/// The value of the step's `k`-th state access.
pub open spec fn access_value(rws: Seq<Rw>, step: ExecStep, k: int) -> nat {
    rws[step.rw_indices@[k] as int].value_spec().value()
}

/// Whether the restore's reads, after the step's first `rw_offset`
/// accesses, are in the trace with values that fit in 64 bits.
pub open spec fn restore_reads_present(rws: Seq<Rw>, step: ExecStep, rw_offset: u64) -> bool {
    &&& step.rw_indices@.len() >= rw_offset as int + RESTORE_CONTEXT_READS as int
    &&& forall|k: int|
        rw_offset <= k < rw_offset + RESTORE_CONTEXT_READS ==> {
            &&& #[trigger] step.rw_indices@[k] < rws.len()
            &&& access_value(rws, step, k) <= u64::MAX as nat
        }
}

/// The caller's context as the restore's reads give it.
pub open spec fn caller_from_trace(rws: Seq<Rw>, step: ExecStep, rw_offset: u64) -> CallerContext {
    let o = rw_offset as int;
    CallerContext {
        caller_id: access_value(rws, step, o) as u64,
        is_root: access_value(rws, step, o + 1) != 0,
        program_counter: access_value(rws, step, o + 2) as u64,
        stack_pointer: access_value(rws, step, o + 3) as u64,
        gas_left: access_value(rws, step, o + 4) as u64,
        memory_word_size: access_value(rws, step, o + 5) as u64,
        reversible_write_counter: access_value(rws, step, o + 6) as u64,
    }
}

fn read_u64(rws: &Vec<Rw>, step: &ExecStep, k: usize) -> (v: u64)
    requires
        k < step.rw_indices@.len(),
        step.rw_indices@[k as int] < rws@.len(),
        access_value(rws@, *step, k as int) <= u64::MAX as nat,
    ensures
        v as nat == access_value(rws@, *step, k as int),
{
    let r = &rws[step.rw_indices[k]];
    let w = match r {
        Rw::Stack { value, .. } => *value,
        Rw::CallContext { value, .. } => *value,
    };
    w.as_u64()
}

/// Reads the caller's context from the trace.
pub fn assign_caller_context(rws: &Vec<Rw>, step: &ExecStep, rw_offset: u64) -> (c: CallerContext)
    requires
        restore_reads_present(rws@, *step, rw_offset),
    ensures
        c == caller_from_trace(rws@, *step, rw_offset),
{
    let n = step.rw_indices.len();
    assert(rw_offset as int <= n);
    let o = rw_offset as usize;
    assert(o as int == rw_offset as int);
    assert(step.rw_indices@[o as int] < rws@.len());
    assert(step.rw_indices@[o + 1] < rws@.len());
    assert(step.rw_indices@[o + 2] < rws@.len());
    assert(step.rw_indices@[o + 3] < rws@.len());
    assert(step.rw_indices@[o + 4] < rws@.len());
    assert(step.rw_indices@[o + 5] < rws@.len());
    assert(step.rw_indices@[o + 6] < rws@.len());
    CallerContext {
        caller_id: read_u64(rws, step, o),
        is_root: read_u64(rws, step, o + 1) != 0,
        program_counter: read_u64(rws, step, o + 2),
        stack_pointer: read_u64(rws, step, o + 3),
        gas_left: read_u64(rws, step, o + 4),
        memory_word_size: read_u64(rws, step, o + 5),
        reversible_write_counter: read_u64(rws, step, o + 6),
    }
}

} // verus!

verus! {

/// When the trace holds reads that meet the restore's constraints for the
/// caller context `c`, reading the caller's context from the trace gives
/// back `c`.
pub proof fn lemma_assigned_caller_matches_reads(
    curr: StepState,
    c: CallerContext,
    rw_offset: u64,
    rws: Seq<Rw>,
    step: ExecStep,
    reads: Seq<Rw>,
)
    requires
        restore_reads_hold(curr, c, rw_offset, reads),
        step.rw_indices@.len() >= rw_offset as int + RESTORE_CONTEXT_READS as int,
        forall|j: int|
            0 <= j < RESTORE_CONTEXT_READS ==> {
                &&& #[trigger] step.rw_indices@[rw_offset as int + j] < rws.len()
                &&& rws[step.rw_indices@[rw_offset as int + j] as int] == reads[j]
            },
    ensures
        restore_reads_present(rws, step, rw_offset),
        caller_from_trace(rws, step, rw_offset) == c,
{
    let o = rw_offset as int;
    assert forall|j: int| 0 <= j < RESTORE_CONTEXT_READS implies access_value(rws, step, o + j)
        == restore_field_value(c, j) by {
        assert(step.rw_indices@[o + j] < rws.len());
        assert(restore_read_holds(curr, c, rw_offset, j, reads[j]));
    }
    assert forall|k: int| rw_offset <= k < rw_offset + RESTORE_CONTEXT_READS implies {
        &&& #[trigger] step.rw_indices@[k] < rws.len()
        &&& access_value(rws, step, k) <= u64::MAX as nat
    } by {
        let j = k - o;
        assert(step.rw_indices@[o + j] < rws.len());
        assert(access_value(rws, step, o + j) == restore_field_value(c, j));
    }
    assert(access_value(rws, step, o) == restore_field_value(c, 0));
    assert(access_value(rws, step, o + 1) == restore_field_value(c, 1));
    assert(access_value(rws, step, o + 2) == restore_field_value(c, 2));
    assert(access_value(rws, step, o + 3) == restore_field_value(c, 3));
    assert(access_value(rws, step, o + 4) == restore_field_value(c, 4));
    assert(access_value(rws, step, o + 5) == restore_field_value(c, 5));
    assert(access_value(rws, step, o + 6) == restore_field_value(c, 6));
}

} // verus!
