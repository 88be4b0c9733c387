//! Column layout of a circuit and the Poseidon lookup table's columns.
use vstd::prelude::*;

verus! {

#[derive(Clone, Copy, Debug, PartialEq, Eq, Structural)]
pub enum ColumnKind {
    Fixed,
    Advice,
}

/// A column of the circuit: its kind and its index among columns of that
/// kind.
#[derive(Clone, Copy, Debug, PartialEq, Eq, Structural)]
pub struct Column {
    pub kind: ColumnKind,
    pub index: usize,
}

/// The columns allocated so far, by kind; each new column takes the next
/// index of its kind.
#[derive(Clone, Copy, Debug, PartialEq, Eq, Structural)]
pub struct ColumnLayout {
    pub num_fixed_columns: usize,
    pub num_advice_columns: usize,
}

impl ColumnLayout {
    pub fn new() -> (l: ColumnLayout)
        ensures
            l.num_fixed_columns == 0,
            l.num_advice_columns == 0,
    {
        ColumnLayout { num_fixed_columns: 0, num_advice_columns: 0 }
    }

    pub fn fixed_column(&mut self) -> (c: Column)
        requires
            old(self).num_fixed_columns < usize::MAX,
        ensures
            c == (Column { kind: ColumnKind::Fixed, index: old(self).num_fixed_columns }),
            final(self).num_fixed_columns == old(self).num_fixed_columns + 1,
            final(self).num_advice_columns == old(self).num_advice_columns,
    {
        let c = Column { kind: ColumnKind::Fixed, index: self.num_fixed_columns };
        self.num_fixed_columns = self.num_fixed_columns + 1;
        c
    }

    pub fn advice_column(&mut self) -> (c: Column)
        requires
            old(self).num_advice_columns < usize::MAX,
        ensures
            c == (Column { kind: ColumnKind::Advice, index: old(self).num_advice_columns }),
            final(self).num_advice_columns == old(self).num_advice_columns + 1,
            final(self).num_fixed_columns == old(self).num_fixed_columns,
    {
        let c = Column { kind: ColumnKind::Advice, index: self.num_advice_columns };
        self.num_advice_columns = self.num_advice_columns + 1;
        c
    }
}

/// Field elements taken by one row of the Poseidon table as hash input.
pub const POSEIDON_INPUT_WIDTH: usize = 2;

/// The Poseidon hash lookup table: a fixed enable flag and five advice
/// columns.
#[derive(Clone, Copy, Debug, PartialEq, Eq, Structural)]
pub struct PoseidonTable {
    pub q_enable: Column,
    pub hash_id: Column,
    pub input0: Column,
    pub input1: Column,
    pub control: Column,
    pub heading_mark: Column,
}

/// The table whose enable flag is fixed column `f` and whose advice
/// columns are `a` to `a + 4`, in field order.
pub open spec fn poseidon_table_at(f: usize, a: usize) -> PoseidonTable {
    PoseidonTable {
        q_enable: Column { kind: ColumnKind::Fixed, index: f },
        hash_id: Column { kind: ColumnKind::Advice, index: a },
        input0: Column { kind: ColumnKind::Advice, index: (a + 1) as usize },
        input1: Column { kind: ColumnKind::Advice, index: (a + 2) as usize },
        control: Column { kind: ColumnKind::Advice, index: (a + 3) as usize },
        heading_mark: Column { kind: ColumnKind::Advice, index: (a + 4) as usize },
    }
}

impl PoseidonTable {
    /// Allocates the table's columns.
    pub fn construct(meta: &mut ColumnLayout) -> (t: PoseidonTable)
        requires
            old(meta).num_fixed_columns < usize::MAX,
            old(meta).num_advice_columns + 5 <= usize::MAX,
        ensures
            t == poseidon_table_at(old(meta).num_fixed_columns, old(meta).num_advice_columns),
            final(meta).num_fixed_columns == old(meta).num_fixed_columns + 1,
            final(meta).num_advice_columns == old(meta).num_advice_columns + 5,
    {
        let q_enable = meta.fixed_column();
        let hash_id = meta.advice_column();
        let input0 = meta.advice_column();
        let input1 = meta.advice_column();
        let control = meta.advice_column();
        let heading_mark = meta.advice_column();
        PoseidonTable { q_enable, hash_id, input0, input1, control, heading_mark }
    }
}

} // verus!
