use vstd::prelude::*;

use crate::handle::HandleKind;
use crate::tables::{
    AtomEntry, BasisShellEntry, flat_atom_table, flat_shell_table, flatten_atoms, flatten_shells,
    lemma_flat_atom_table_len, lemma_flat_shell_table_len,
};

verus! {

/// How many shell indices an evaluation function consumes: two for
/// one-electron integrals, four for two-electron integrals.
#[derive(Clone, Copy, PartialEq, Eq, Structural, Debug)]
pub enum Arity {
    OneElectron,
    TwoElectron,
}

impl Arity {
    /// The number of shell-index slots this arity prescribes.
    pub open spec fn shell_slots(self) -> nat {
        match self {
            Arity::OneElectron => 2,
            Arity::TwoElectron => 4,
        }
    }
}

/// Ghost description of everything a marshalled evaluation call hands to
/// a native integral function, besides the raw pointers that only the
/// unverified shell can produce: the shell-index array, both flat tables
/// with their separately passed counts, the fixed choices this crate
/// makes (no dimensions array, no scratch cache), and whether the
/// optimizer slot carries an owned native object or the null placeholder.
#[verifier::ext_equal]
pub struct CallDescription {
    pub arity: Arity,
    pub shells: Seq<i32>,
    pub atom_table: Seq<i32>,
    pub atom_count: int,
    pub shell_table: Seq<i32>,
    pub shell_count: int,
    pub dims_supplied: bool,
    pub cache_supplied: bool,
    pub optimizer: HandleKind,
}

impl CallDescription {
    /// Internal consistency of a marshalled call: exactly as many shell
    /// indices as the arity prescribes, tables whose lengths agree with
    /// the separately passed row counts, and the two unsupported slots
    /// (dimensions array, scratch cache) left empty.
    pub open spec fn wf(self) -> bool {
        &&& self.shells.len() == self.arity.shell_slots()
        &&& 0 <= self.atom_count
        &&& self.atom_table.len() == 6 * self.atom_count
        &&& 0 <= self.shell_count
        &&& self.shell_table.len() == 8 * self.shell_count
        &&& !self.dims_supplied
        &&& !self.cache_supplied
    }
}

/// What an evaluation call marshals from the given inputs: the shell
/// indices verbatim, each table flattened row-major with its row count
/// alongside, null dimensions and cache slots, and the given optimizer
/// disposition.
pub open spec fn call_description(
    arity: Arity,
    shells: Seq<i32>,
    atoms: Seq<AtomEntry>,
    basis: Seq<BasisShellEntry>,
    optimizer: HandleKind,
) -> CallDescription {
    CallDescription {
        arity,
        shells,
        atom_table: flat_atom_table(atoms),
        atom_count: atoms.len() as int,
        shell_table: flat_shell_table(basis),
        shell_count: basis.len() as int,
        dims_supplied: false,
        cache_supplied: false,
        optimizer: optimizer,
    }
}

/// What the unoptimized call path marshals: it synthesizes a fresh
/// non-owning placeholder handle for the one call and marshals everything
/// else unchanged.
pub open spec fn unoptimized_description(
    arity: Arity,
    shells: Seq<i32>,
    atoms: Seq<AtomEntry>,
    basis: Seq<BasisShellEntry>,
) -> CallDescription {
    call_description(arity, shells, atoms, basis, HandleKind::NonOwning)
}

/// Law (adapter equivalence): for any shell tuple and any input tables,
/// the unoptimized path describes exactly the call that the
/// optimizer-accepting path describes when handed a non-owning
/// placeholder handle. The native function therefore receives identical
/// arguments either way, so output buffer and status code cannot differ
/// between the two paths.
pub proof fn lemma_adapter_equivalence(
    arity: Arity,
    shells: Seq<i32>,
    atoms: Seq<AtomEntry>,
    basis: Seq<BasisShellEntry>,
)
    ensures
        unoptimized_description(arity, shells, atoms, basis) == call_description(
            arity,
            shells,
            atoms,
            basis,
            HandleKind::NonOwning,
        ),
{
}

/// Law (marshalled calls are well formed): whenever the shell tuple has
/// the length the arity prescribes, the marshalled description is
/// internally consistent — the flat tables hold exactly six or eight
/// slots per declared row and the unsupported slots stay empty.
pub proof fn lemma_call_description_wf(
    arity: Arity,
    shells: Seq<i32>,
    atoms: Seq<AtomEntry>,
    basis: Seq<BasisShellEntry>,
    optimizer: HandleKind,
)
    requires
        shells.len() == arity.shell_slots(),
    ensures
        call_description(arity, shells, atoms, basis, optimizer).wf(),
{
    lemma_flat_atom_table_len(atoms);
    lemma_flat_shell_table_len(basis);
}

/// A fully marshalled evaluation call, ready for the unverified shell to
/// hand to a native integral function together with the caller's output
/// buffer and environment array. Fields mirror `CallDescription` slot for
/// slot.
pub struct EvalCall {
    pub arity: Arity,
    pub shells: Vec<i32>,
    pub atom_table: Vec<i32>,
    pub atom_count: i32,
    pub shell_table: Vec<i32>,
    pub shell_count: i32,
    pub dims_supplied: bool,
    pub cache_supplied: bool,
    pub optimizer: HandleKind,
}

impl View for EvalCall {
    type V = CallDescription;

    open spec fn view(&self) -> CallDescription {
        CallDescription {
            arity: self.arity,
            shells: self.shells@,
            atom_table: self.atom_table@,
            atom_count: self.atom_count as int,
            shell_table: self.shell_table@,
            shell_count: self.shell_count as int,
            dims_supplied: self.dims_supplied,
            cache_supplied: self.cache_supplied,
            optimizer: self.optimizer,
        }
    }
}

/// Marshals a one-electron evaluation call: exactly two shell indices,
/// enforced at construction time by the parameter type.
pub fn one_electron_call(
    shells: [i32; 2],
    atoms: &Vec<AtomEntry>,
    basis: &Vec<BasisShellEntry>,
    optimizer: HandleKind,
) -> (c: EvalCall)
    requires
        atoms@.len() <= i32::MAX as int,
        basis@.len() <= i32::MAX as int,
    ensures
        c@ == call_description(Arity::OneElectron, shells@, atoms@, basis@, optimizer),
        c@.wf(),
{
    let mut sh: Vec<i32> = Vec::new();
    sh.push(shells[0]);
    sh.push(shells[1]);
    let c = EvalCall {
        arity: Arity::OneElectron,
        shells: sh,
        atom_table: flatten_atoms(atoms),
        atom_count: atoms.len() as i32,
        shell_table: flatten_shells(basis),
        shell_count: basis.len() as i32,
        dims_supplied: false,
        cache_supplied: false,
        optimizer,
    };
    proof {
        assert(c.shells@ =~= shells@);
        assert(c@ =~= call_description(Arity::OneElectron, shells@, atoms@, basis@, optimizer));
        lemma_call_description_wf(Arity::OneElectron, shells@, atoms@, basis@, optimizer);
    }
    c
}

/// Marshals a two-electron evaluation call: exactly four shell indices,
/// enforced at construction time by the parameter type.
pub fn two_electron_call(
    shells: [i32; 4],
    atoms: &Vec<AtomEntry>,
    basis: &Vec<BasisShellEntry>,
    optimizer: HandleKind,
) -> (c: EvalCall)
    requires
        atoms@.len() <= i32::MAX as int,
        basis@.len() <= i32::MAX as int,
    ensures
        c@ == call_description(Arity::TwoElectron, shells@, atoms@, basis@, optimizer),
        c@.wf(),
{
    let mut sh: Vec<i32> = Vec::new();
    sh.push(shells[0]);
    sh.push(shells[1]);
    sh.push(shells[2]);
    sh.push(shells[3]);
    let c = EvalCall {
        arity: Arity::TwoElectron,
        shells: sh,
        atom_table: flatten_atoms(atoms),
        atom_count: atoms.len() as i32,
        shell_table: flatten_shells(basis),
        shell_count: basis.len() as i32,
        dims_supplied: false,
        cache_supplied: false,
        optimizer,
    };
    proof {
        assert(c.shells@ =~= shells@);
        assert(c@ =~= call_description(Arity::TwoElectron, shells@, atoms@, basis@, optimizer));
        lemma_call_description_wf(Arity::TwoElectron, shells@, atoms@, basis@, optimizer);
    }
    c
}

/// The unoptimized one-electron path: marshals the same call the
/// optimizer-accepting path would, around a fresh non-owning placeholder.
pub fn one_electron_call_unoptimized(
    shells: [i32; 2],
    atoms: &Vec<AtomEntry>,
    basis: &Vec<BasisShellEntry>,
) -> (c: EvalCall)
    requires
        atoms@.len() <= i32::MAX as int,
        basis@.len() <= i32::MAX as int,
    ensures
        c@ == unoptimized_description(Arity::OneElectron, shells@, atoms@, basis@),
        c@.wf(),
{
    one_electron_call(shells, atoms, basis, HandleKind::NonOwning)
}

/// The unoptimized two-electron path: marshals the same call the
/// optimizer-accepting path would, around a fresh non-owning placeholder.
pub fn two_electron_call_unoptimized(
    shells: [i32; 4],
    atoms: &Vec<AtomEntry>,
    basis: &Vec<BasisShellEntry>,
) -> (c: EvalCall)
    requires
        atoms@.len() <= i32::MAX as int,
        basis@.len() <= i32::MAX as int,
    ensures
        c@ == unoptimized_description(Arity::TwoElectron, shells@, atoms@, basis@),
        c@.wf(),
{
    two_electron_call(shells, atoms, basis, HandleKind::NonOwning)
}

/// Ghost description of a marshalled optimizer-constructor call: the two
/// flat tables with their separately passed row counts. The handle built
/// around the constructor's result is always owning.
#[verifier::ext_equal]
pub struct BuildDescription {
    pub atom_table: Seq<i32>,
    pub atom_count: int,
    pub shell_table: Seq<i32>,
    pub shell_count: int,
}

/// What an optimizer-constructor call marshals from the given inputs.
pub open spec fn build_description(
    atoms: Seq<AtomEntry>,
    basis: Seq<BasisShellEntry>,
) -> BuildDescription {
    BuildDescription {
        atom_table: flat_atom_table(atoms),
        atom_count: atoms.len() as int,
        shell_table: flat_shell_table(basis),
        shell_count: basis.len() as int,
    }
}

/// A fully marshalled optimizer-constructor call, ready for the
/// unverified shell to hand to a native constructor function together
/// with the caller's environment array.
pub struct OptimizerBuildCall {
    pub atom_table: Vec<i32>,
    pub atom_count: i32,
    pub shell_table: Vec<i32>,
    pub shell_count: i32,
}

impl View for OptimizerBuildCall {
    type V = BuildDescription;

    open spec fn view(&self) -> BuildDescription {
        BuildDescription {
            atom_table: self.atom_table@,
            atom_count: self.atom_count as int,
            shell_table: self.shell_table@,
            shell_count: self.shell_count as int,
        }
    }
}

/// Marshals an optimizer-constructor call: the same flat tables and
/// counts an evaluation call passes, so a constructor and the evaluation
/// calls that later use its handle see the very same inputs.
pub fn optimizer_build_call(
    atoms: &Vec<AtomEntry>,
    basis: &Vec<BasisShellEntry>,
) -> (c: OptimizerBuildCall)
    requires
        atoms@.len() <= i32::MAX as int,
        basis@.len() <= i32::MAX as int,
    ensures
        c@ == build_description(atoms@, basis@),
{
    let c = OptimizerBuildCall {
        atom_table: flatten_atoms(atoms),
        atom_count: atoms.len() as i32,
        shell_table: flatten_shells(basis),
        shell_count: basis.len() as i32,
    };
    proof {
        assert(c@ =~= build_description(atoms@, basis@));
    }
    c
}

} // verus!
