use vstd::prelude::*;

verus! {

/// One row of the caller-provided atom table: six integer slots, in the
/// exact order the native calling convention lays them out — the nuclear
/// charge, then offsets into the shared environment array, then the
/// reserved slot. Rows are read-only to this crate once constructed.
#[derive(Clone, Copy, PartialEq, Eq, Structural, Debug)]
pub struct AtomEntry {
    pub nuclear_charge: i32,
    pub coord_offset: i32,
    pub nuclear_model: i32,
    pub zeta_offset: i32,
    pub fractional_charge_offset: i32,
    pub reserved: i32,
}

/// One row of the caller-provided basis-shell table: eight integer slots,
/// in the exact order the native calling convention lays them out — the
/// owning atom, angular momentum, contraction depth, then offsets into
/// the shared environment array, then the reserved slot.
#[derive(Clone, Copy, PartialEq, Eq, Structural, Debug)]
pub struct BasisShellEntry {
    pub atom_index: i32,
    pub angular_momentum: i32,
    pub primitive_count: i32,
    pub contraction_count: i32,
    pub kappa: i32,
    pub exponent_offset: i32,
    pub coefficient_offset: i32,
    pub reserved: i32,
}

impl AtomEntry {
    /// The six slots of this row, in native order.
    pub open spec fn slots(self) -> Seq<i32> {
        seq![
            self.nuclear_charge,
            self.coord_offset,
            self.nuclear_model,
            self.zeta_offset,
            self.fractional_charge_offset,
            self.reserved,
        ]
    }

    /// Reads one row, given in native slot order, into a typed record.
    pub fn from_row(row: [i32; 6]) -> (a: AtomEntry)
        ensures
            a.slots() == row@,
    {
        let a = AtomEntry {
            nuclear_charge: row[0],
            coord_offset: row[1],
            nuclear_model: row[2],
            zeta_offset: row[3],
            fractional_charge_offset: row[4],
            reserved: row[5],
        };
        proof {
            assert(a.slots() =~= row@);
        }
        a
    }
}

impl BasisShellEntry {
    /// The eight slots of this row, in native order.
    pub open spec fn slots(self) -> Seq<i32> {
        seq![
            self.atom_index,
            self.angular_momentum,
            self.primitive_count,
            self.contraction_count,
            self.kappa,
            self.exponent_offset,
            self.coefficient_offset,
            self.reserved,
        ]
    }

    /// Reads one row, given in native slot order, into a typed record.
    pub fn from_row(row: [i32; 8]) -> (b: BasisShellEntry)
        ensures
            b.slots() == row@,
    {
        let b = BasisShellEntry {
            atom_index: row[0],
            angular_momentum: row[1],
            primitive_count: row[2],
            contraction_count: row[3],
            kappa: row[4],
            exponent_offset: row[5],
            coefficient_offset: row[6],
            reserved: row[7],
        };
        proof {
            assert(b.slots() =~= row@);
        }
        b
    }
}

/// The flat integer table for a sequence of atom rows: the rows' slots
/// laid end to end, six to a row, in row order.
pub open spec fn flat_atom_table(atoms: Seq<AtomEntry>) -> Seq<i32>
    decreases atoms.len(),
{
    if atoms.len() == 0 {
        Seq::empty()
    } else {
        flat_atom_table(atoms.drop_last()) + atoms.last().slots()
    }
}

/// The flat integer table for a sequence of basis-shell rows: the rows'
/// slots laid end to end, eight to a row, in row order.
pub open spec fn flat_shell_table(shells: Seq<BasisShellEntry>) -> Seq<i32>
    decreases shells.len(),
{
    if shells.len() == 0 {
        Seq::empty()
    } else {
        flat_shell_table(shells.drop_last()) + shells.last().slots()
    }
}

pub proof fn lemma_flat_atom_table_len(atoms: Seq<AtomEntry>)
    ensures
        flat_atom_table(atoms).len() == 6 * atoms.len(),
    decreases atoms.len(),
{
    if atoms.len() > 0 {
        lemma_flat_atom_table_len(atoms.drop_last());
    }
}

pub proof fn lemma_flat_shell_table_len(shells: Seq<BasisShellEntry>)
    ensures
        flat_shell_table(shells).len() == 8 * shells.len(),
    decreases shells.len(),
{
    if shells.len() > 0 {
        lemma_flat_shell_table_len(shells.drop_last());
    }
}

/// Slot `j` of atom row `i` stands at position `6 * i + j` of the flat
/// table: the layout neither reorders nor interleaves rows.
pub proof fn lemma_flat_atom_table_index(atoms: Seq<AtomEntry>, i: int, j: int)
    requires
        0 <= i < atoms.len(),
        0 <= j < 6,
    ensures
        flat_atom_table(atoms)[6 * i + j] == atoms[i].slots()[j],
    decreases atoms.len(),
{
    lemma_flat_atom_table_len(atoms.drop_last());
    if i < atoms.len() - 1 {
        lemma_flat_atom_table_index(atoms.drop_last(), i, j);
    }
}

/// Slot `j` of shell row `i` stands at position `8 * i + j` of the flat
/// table: the layout neither reorders nor interleaves rows.
pub proof fn lemma_flat_shell_table_index(shells: Seq<BasisShellEntry>, i: int, j: int)
    requires
        0 <= i < shells.len(),
        0 <= j < 8,
    ensures
        flat_shell_table(shells)[8 * i + j] == shells[i].slots()[j],
    decreases shells.len(),
{
    lemma_flat_shell_table_len(shells.drop_last());
    if i < shells.len() - 1 {
        lemma_flat_shell_table_index(shells.drop_last(), i, j);
    }
}

/// Flattens the atom table into the contiguous row-major integer sequence
/// that the native calling convention takes.
pub fn flatten_atoms(atoms: &Vec<AtomEntry>) -> (flat: Vec<i32>)
    ensures
        flat@ == flat_atom_table(atoms@),
        flat@.len() == 6 * atoms@.len(),
        forall|i: int, j: int|
            0 <= i < atoms@.len() && 0 <= j < 6 ==> flat@[6 * i + j] == atoms@[i].slots()[j],
{
    let mut flat: Vec<i32> = Vec::new();
    for k in 0..atoms.len()
        invariant
            flat@ == flat_atom_table(atoms@.take(k as int)),
    {
        let a = &atoms[k];
        flat.push(a.nuclear_charge);
        flat.push(a.coord_offset);
        flat.push(a.nuclear_model);
        flat.push(a.zeta_offset);
        flat.push(a.fractional_charge_offset);
        flat.push(a.reserved);
        proof {
            assert(atoms@.take(k + 1).drop_last() =~= atoms@.take(k as int));
            assert(flat@ =~= flat_atom_table(atoms@.take(k + 1)));
        }
    }
    proof {
        assert(atoms@.take(atoms@.len() as int) =~= atoms@);
        lemma_flat_atom_table_len(atoms@);
        assert forall|i: int, j: int|
            0 <= i < atoms@.len() && 0 <= j < 6 implies flat@[6 * i + j]
            == atoms@[i].slots()[j] by {
            lemma_flat_atom_table_index(atoms@, i, j);
        }
    }
    flat
}

/// Flattens the basis-shell table into the contiguous row-major integer
/// sequence that the native calling convention takes.
pub fn flatten_shells(shells: &Vec<BasisShellEntry>) -> (flat: Vec<i32>)
    ensures
        flat@ == flat_shell_table(shells@),
        flat@.len() == 8 * shells@.len(),
        forall|i: int, j: int|
            0 <= i < shells@.len() && 0 <= j < 8 ==> flat@[8 * i + j] == shells@[i].slots()[j],
{
    let mut flat: Vec<i32> = Vec::new();
    for k in 0..shells.len()
        invariant
            flat@ == flat_shell_table(shells@.take(k as int)),
    {
        let b = &shells[k];
        flat.push(b.atom_index);
        flat.push(b.angular_momentum);
        flat.push(b.primitive_count);
        flat.push(b.contraction_count);
        flat.push(b.kappa);
        flat.push(b.exponent_offset);
        flat.push(b.coefficient_offset);
        flat.push(b.reserved);
        proof {
            assert(shells@.take(k + 1).drop_last() =~= shells@.take(k as int));
            assert(flat@ =~= flat_shell_table(shells@.take(k + 1)));
        }
    }
    proof {
        assert(shells@.take(shells@.len() as int) =~= shells@);
        lemma_flat_shell_table_len(shells@);
        assert forall|i: int, j: int|
            0 <= i < shells@.len() && 0 <= j < 8 implies flat@[8 * i + j]
            == shells@[i].slots()[j] by {
            lemma_flat_shell_table_index(shells@, i, j);
        }
    }
    flat
}

} // verus!
