//! Witness-level model of three pieces of a zk-EVM circuit suite: the
//! CHAINID execution gadget, the invalid-jump error gadget and the
//! Poseidon hashing sub-circuit wrapper.
//!
//! Each gadget is described by the values it assigns to its cells and by
//! the relations its constraints impose on those values, over plain
//! integers instead of field elements.
pub mod word;
pub mod opcode;
pub mod bytecode;
pub mod step;
pub mod witness;
pub mod restore_context;
pub mod error_invalid_jump;
pub mod chainid;
pub mod table;
pub mod poseidon_circuit;
