//! The sub-circuit that fills the Poseidon hash table.
use vstd::prelude::*;
use crate::table::{Column, ColumnLayout, PoseidonTable, POSEIDON_INPUT_WIDTH};

verus! {

/// Bytes of bytecode packed into one field element of hash input.
pub const HASHBLOCK_BYTES_IN_FIELD: usize = 31;

/// Bytecode bytes absorbed by one row of the hash table.
pub const HASH_BLOCK_STEP_SIZE: usize = HASHBLOCK_BYTES_IN_FIELD * POSEIDON_INPUT_WIDTH;

/// Size limits of the circuits of one proof.
#[derive(Clone, Copy, Debug, PartialEq, Eq, Structural)]
pub struct CircuitsParams {
    pub max_evm_rows: usize,
}

/// The rows to hash: each a pair of field elements.
#[derive(Clone, Debug)]
pub struct PoseidonHashTable<F> {
    pub inputs: Vec<[F; 2]>,
}

impl<F> PoseidonHashTable<F> {
    pub fn new() -> (t: PoseidonHashTable<F>)
        ensures
            t.inputs@.len() == 0,
    {
        PoseidonHashTable { inputs: Vec::new() }
    }
}

/// Arguments for configuring the sub-circuit.
pub struct PoseidonCircuitConfigArgs {
    pub poseidon_table: PoseidonTable,
}

/// The sub-circuit's configuration: the table's enable flag, its advice
/// columns in the order the hash chip reads them, and the bytecode bytes
/// absorbed per row.
#[derive(Clone, Copy, Debug)]
pub struct PoseidonCircuitConfig {
    pub q_enable: Column,
    pub columns: [Column; 5],
    pub step: usize,
}

impl PoseidonCircuitConfig {
    pub fn new(args: PoseidonCircuitConfigArgs) -> (c: PoseidonCircuitConfig)
        ensures
            c.q_enable == args.poseidon_table.q_enable,
            c.columns@ == seq![
                args.poseidon_table.hash_id,
                args.poseidon_table.input0,
                args.poseidon_table.input1,
                args.poseidon_table.control,
                args.poseidon_table.heading_mark,
            ],
            c.step == HASH_BLOCK_STEP_SIZE,
    {
        let t = args.poseidon_table;
        let columns = [t.hash_id, t.input0, t.input1, t.control, t.heading_mark];
        assert(columns@ =~= seq![t.hash_id, t.input0, t.input1, t.control, t.heading_mark]);
        PoseidonCircuitConfig { q_enable: t.q_enable, columns, step: HASH_BLOCK_STEP_SIZE }
    }
}

/// The hash rows to lay out and the number of hashes the circuit can hold.
#[derive(Clone, Debug)]
pub struct PoseidonCircuit<F> {
    pub table: PoseidonHashTable<F>,
    pub max_hashes: usize,
}

impl<F> PoseidonCircuit<F> {
    /// The circuit for a block: room for as many hashes as the block's EVM
    /// rows allow at `hash_block_size` rows per hash, and no hash rows of
    /// its own.
    pub fn new_from_block(params: &CircuitsParams, hash_block_size: usize) -> (c: PoseidonCircuit<F>)
        requires
            hash_block_size > 0,
        ensures
            c.max_hashes == params.max_evm_rows / hash_block_size,
            c.table.inputs@.len() == 0,
    {
        PoseidonCircuit {
            table: PoseidonHashTable::new(),
            max_hashes: params.max_evm_rows / hash_block_size,
        }
    }

    /// Rows needed for `num_hashes` hashes of `hash_block_size` rows each,
    /// and the rows the block asks for: the larger of that and its EVM rows.
    pub fn min_num_rows_block(params: &CircuitsParams, hash_block_size: usize, num_hashes: usize) -> (r: (usize, usize))
        requires
            num_hashes * hash_block_size <= usize::MAX,
        ensures
            r.0 == num_hashes * hash_block_size,
            r.1 == if params.max_evm_rows >= r.0 {
                params.max_evm_rows
            } else {
                r.0
            },
    {
        let acc = num_hashes * hash_block_size;
        let rows = if params.max_evm_rows >= acc {
            params.max_evm_rows
        } else {
            acc
        };
        (acc, rows)
    }

    /// The same circuit with no hash rows, for key generation.
    pub fn without_witnesses(&self) -> (c: PoseidonCircuit<F>)
        ensures
            c.max_hashes == self.max_hashes,
            c.table.inputs@.len() == 0,
    {
        PoseidonCircuit { table: PoseidonHashTable::new(), max_hashes: self.max_hashes }
    }

    /// The circuit has no instance columns.
    pub fn instance(&self) -> (r: Vec<Vec<F>>)
        ensures
            r@.len() == 0,
    {
        Vec::new()
    }

    /// Allocates the hash table's columns and configures the sub-circuit
    /// over them.
    pub fn configure(meta: &mut ColumnLayout) -> (c: PoseidonCircuitConfig)
        requires
            old(meta).num_fixed_columns < usize::MAX,
            old(meta).num_advice_columns + 5 <= usize::MAX,
        ensures
            c.q_enable == crate::table::poseidon_table_at(
                old(meta).num_fixed_columns,
                old(meta).num_advice_columns,
            ).q_enable,
            forall|i: int|
                0 <= i < 5 ==> #[trigger] c.columns@[i] == (Column {
                    kind: crate::table::ColumnKind::Advice,
                    index: (old(meta).num_advice_columns + i) as usize,
                }),
            c.step == HASH_BLOCK_STEP_SIZE,
            final(meta).num_fixed_columns == old(meta).num_fixed_columns + 1,
            final(meta).num_advice_columns == old(meta).num_advice_columns + 5,
    {
        let poseidon_table = PoseidonTable::construct(meta);
        PoseidonCircuitConfig::new(PoseidonCircuitConfigArgs { poseidon_table })
    }
}

} // verus!
