//! Contract bytecode and the split of its bytes into code and push data.
use vstd::prelude::*;
use crate::opcode::{data_size, push_size};

verus! {

/// How many push-data bytes are still owed when the scan reaches
/// position `i`: zero exactly when the byte at `i` is an opcode.
pub open spec fn push_data_left(bytes: Seq<u8>, i: nat) -> nat
    decreases i,
{
    if i == 0 {
        0
    } else {
        let prev = push_data_left(bytes, (i - 1) as nat);
        if prev == 0 {
            push_size(bytes[i - 1])
        } else {
            (prev - 1) as nat
        }
    }
}

/// Whether the byte at `i` is an opcode rather than push data.
pub open spec fn is_code_at(bytes: Seq<u8>, i: nat) -> bool {
    push_data_left(bytes, i) == 0
}

pub proof fn lemma_push_data_left_bound(bytes: Seq<u8>, i: nat)
    ensures
        push_data_left(bytes, i) <= 32,
    decreases i,
{
    if i > 0 {
        lemma_push_data_left_bound(bytes, (i - 1) as nat);
    }
}

/// A contract's code.
#[derive(Clone, Debug)]
pub struct Bytecode {
    pub bytes: Vec<u8>,
}

impl Bytecode {
    pub fn new(bytes: Vec<u8>) -> (r: Bytecode)
        ensures
            r.bytes@ == bytes@,
    {
        Bytecode { bytes }
    }

    pub fn len(&self) -> (r: usize)
        ensures
            r == self.bytes@.len(),
    {
        self.bytes.len()
    }

    /// The byte at `dest` and whether it is an opcode.
    pub fn get(&self, dest: usize) -> (r: (u8, bool))
        requires
            dest < self.bytes@.len(),
        ensures
            r.0 == self.bytes@[dest as int],
            r.1 == is_code_at(self.bytes@, dest as nat),
    {
        let mut left: u64 = 0;
        let mut idx: usize = 0;
        while idx < dest
            invariant
                idx <= dest,
                dest < self.bytes@.len(),
                left as nat == push_data_left(self.bytes@, idx as nat),
            decreases dest - idx,
        {
            proof {
                lemma_push_data_left_bound(self.bytes@, idx as nat);
            }
            if left == 0 {
                left = data_size(self.bytes[idx]);
            } else {
                left = left - 1;
            }
            idx = idx + 1;
        }
        (self.bytes[dest], left == 0)
    }
}

} // verus!

verus! {

/// The `k`-th byte after a PUSH opcode, within its data, still owes the
/// rest of that data.
proof fn lemma_push_data_left_after_push(bytes: Seq<u8>, i: nat, k: nat)
    requires
        i < bytes.len(),
        is_code_at(bytes, i),
        1 <= k <= push_size(bytes[i as int]),
    ensures
        push_data_left(bytes, i + k) == push_size(bytes[i as int]) - k + 1,
    decreases k,
{
    if k > 1 {
        lemma_push_data_left_after_push(bytes, i, (k - 1) as nat);
        assert(push_data_left(bytes, i + k) == push_data_left(bytes, (i + k - 1) as nat) - 1);
    } else {
        assert(push_data_left(bytes, i + 1) == push_size(bytes[i as int]));
    }
}

/// The bytes an opcode's push data covers are never opcodes themselves.
pub proof fn lemma_push_data_not_code(bytes: Seq<u8>, i: nat, k: nat)
    requires
        i < bytes.len(),
        is_code_at(bytes, i),
        1 <= k <= push_size(bytes[i as int]),
    ensures
        !is_code_at(bytes, i + k),
{
    lemma_push_data_left_after_push(bytes, i, k);
}

} // verus!
