//! The EVM opcodes and gas costs that the gadgets refer to.
use vstd::prelude::*;

verus! {

pub const STOP: u8 = 0x00;

pub const CHAINID: u8 = 0x46;

pub const JUMP: u8 = 0x56;

pub const JUMPDEST: u8 = 0x5b;

pub const PUSH1: u8 = 0x60;

pub const PUSH32: u8 = 0x7f;

/// Gas of the cheapest class of instructions, CHAINID among them.
pub const GAS_QUICK_STEP: u64 = 2;

/// Number of immediate data bytes that follow an opcode in the code.
pub open spec fn push_size(op: u8) -> nat {
    if PUSH1 <= op && op <= PUSH32 {
        (op - PUSH1 + 1) as nat
    } else {
        0
    }
}

/// Executable form of `push_size`.
pub fn data_size(op: u8) -> (r: u64)
    ensures
        r as nat == push_size(op),
        r <= 32,
{
    if PUSH1 <= op && op <= PUSH32 {
        (op - PUSH1 + 1) as u64
    } else {
        0
    }
}

/// The constant gas cost of CHAINID.
pub fn chainid_gas_cost() -> (r: u64)
    ensures
        r == GAS_QUICK_STEP,
{
    GAS_QUICK_STEP
}

} // verus!
