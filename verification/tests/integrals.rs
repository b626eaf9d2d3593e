// Fixtures for the integral evaluations: a water molecule in the cc-pVDZ
// basis. The native integral library is a link-time artifact that is not
// available in this build, so these tests exercise everything on this
// side of the foreign call: that each evaluation marshals exactly the
// arguments the native function would receive, and that the two call
// paths agree.

use cint::call::{
    one_electron_call_unoptimized, optimizer_build_call, two_electron_call,
    two_electron_call_unoptimized, Arity,
};
use cint::handle::{HandleKind, OptimizerState};
use cint::tables::{flatten_atoms, flatten_shells, AtomEntry, BasisShellEntry};

fn get_h2o_ccpvdz_params() -> ([[i32; 6]; 3], [[i32; 8]; 12], [f64; 106]) {
    let atm = [
        [8, 20, 0, 0, 0, 0],
        [1, 74, 0, 0, 0, 0],
        [1, 90, 0, 0, 0, 0],
    ];
    let bas = [
        [0, 0, 9, 1, 0, 24, 33, 0],
        [0, 0, 9, 1, 0, 42, 51, 0],
        [0, 0, 1, 1, 0, 60, 61, 0],
        [0, 1, 4, 1, 0, 62, 66, 0],
        [0, 1, 1, 1, 0, 70, 71, 0],
        [0, 2, 1, 1, 0, 72, 73, 0],
        [1, 0, 4, 1, 0, 78, 82, 0],
        [1, 0, 1, 1, 0, 86, 87, 0],
        [1, 1, 1, 1, 0, 88, 89, 0],
        [2, 0, 4, 1, 0, 94, 98, 0],
        [2, 0, 1, 1, 0, 102, 103, 0],
        [2, 1, 1, 1, 0, 104, 105, 0],
    ];
    let env = [
        0.0,
        0.0,
        0.0,
        0.0,
        0.0,
        0.0,
        0.0,
        0.0,
        0.0,
        0.0,
        0.0,
        0.0,
        0.0,
        0.0,
        0.0,
        0.0,
        0.0,
        0.0,
        0.0,
        0.0,
        0.0,
        0.0,
        0.0,
        0.0,
        11720.0,
        1759.0,
        400.8,
        113.7,
        37.03,
        13.27,
        5.025,
        1.013,
        0.3023,
        2.020547580103431,
        3.7536323225593904,
        6.299893943574668,
        9.219272574580845,
        10.735242992903203,
        7.882113341271768,
        2.2975207101423387,
        0.03943441578671931,
        -0.002662589297873141,
        11720.0,
        1759.0,
        400.8,
        113.7,
        37.03,
        13.27,
        5.025,
        1.013,
        0.3023,
        -0.45533466593880145,
        -0.8666979201814461,
        -1.4183078400827118,
        -2.262240587098483,
        -2.689821926039761,
        -2.905578435263727,
        -0.9917126821529172,
        1.4218839085400548,
        0.5899504772381131,
        0.3023,
        1.0300152022720082,
        17.7,
        3.854,
        1.046,
        0.2753,
        4.556183329863166,
        3.6061558120480353,
        1.5699457292299095,
        0.26791746556315915,
        0.2753,
        0.5817577222014568,
        1.185,
        3.5118543773803417,
        1.8897261246257702,
        0.0,
        0.0,
        0.0,
        13.01,
        1.962,
        0.4446,
        0.122,
        0.34068923869698303,
        0.5778910580209711,
        0.6577403143783562,
        0.2614150690824873,
        0.122,
        0.5215367270818116,
        0.727,
        1.9584045348700287,
        0.0,
        1.8897261246257702,
        0.0,
        0.0,
        13.01,
        1.962,
        0.4446,
        0.122,
        0.34068923869698303,
        0.5778910580209711,
        0.6577403143783562,
        0.2614150690824873,
        0.122,
        0.5215367270818116,
        0.727,
        1.9584045348700287,
    ];

    (atm, bas, env)
}

fn entries(
    atm: &[[i32; 6]],
    bas: &[[i32; 8]],
) -> (Vec<AtomEntry>, Vec<BasisShellEntry>) {
    (
        atm.iter().map(|r| AtomEntry::from_row(*r)).collect(),
        bas.iter().map(|r| BasisShellEntry::from_row(*r)).collect(),
    )
}

#[test]
fn test_overlap() {
    let (atm, bas, env) = get_h2o_ccpvdz_params();
    let (atoms, shells) = entries(&atm, &bas);

    let call = one_electron_call_unoptimized([3, 8], &atoms, &shells);

    // The overlap evaluation of shells [3, 8] fills a 9-value buffer; the
    // native side infers that size from these marshalled tables, which
    // must be the fixture rows laid end to end with their counts.
    assert_eq!(call.arity, Arity::OneElectron);
    assert_eq!(call.shells, vec![3, 8]);
    assert_eq!(call.atom_count, 3);
    assert_eq!(call.shell_count, 12);
    let flat_atm: Vec<i32> = atm.iter().flatten().copied().collect();
    let flat_bas: Vec<i32> = bas.iter().flatten().copied().collect();
    assert_eq!(call.atom_table, flat_atm);
    assert_eq!(call.shell_table, flat_bas);
    assert!(!call.dims_supplied);
    assert!(!call.cache_supplied);
    assert_eq!(call.optimizer, HandleKind::NonOwning);
    assert_eq!(env.len(), 106);
}

#[test]
fn test_eri() {
    let (atm, bas, _env) = get_h2o_ccpvdz_params();
    let (atoms, shells) = entries(&atm, &bas);

    let call = two_electron_call_unoptimized([1, 6, 11, 5], &atoms, &shells);

    // The repulsion evaluation of shells [1, 6, 11, 5] fills a 15-value
    // buffer; on this side of the call the four shell indices and both
    // tables go through verbatim, with no optimizer attached.
    assert_eq!(call.arity, Arity::TwoElectron);
    assert_eq!(call.shells, vec![1, 6, 11, 5]);
    assert_eq!(call.atom_count, 3);
    assert_eq!(call.shell_count, 12);
    let flat_atm: Vec<i32> = atm.iter().flatten().copied().collect();
    let flat_bas: Vec<i32> = bas.iter().flatten().copied().collect();
    assert_eq!(call.atom_table, flat_atm);
    assert_eq!(call.shell_table, flat_bas);
    assert_eq!(call.optimizer, HandleKind::NonOwning);
}

#[test]
fn test_eri_opt() {
    let (atm, bas, _env) = get_h2o_ccpvdz_params();
    let (atoms, shells) = entries(&atm, &bas);

    // The optimizer is constructed from the same fixtures the evaluation
    // uses, and wraps the native result as an owning handle.
    let build = optimizer_build_call(&atoms, &shells);
    let mut state = OptimizerState::owning();

    let with_opt = two_electron_call([1, 6, 11, 5], &atoms, &shells, state.kind);
    let without = two_electron_call_unoptimized([1, 6, 11, 5], &atoms, &shells);

    // Optimized and unoptimized paths hand the native function the same
    // shell indices, tables and counts; only the optimizer slot differs.
    assert_eq!(with_opt.shells, without.shells);
    assert_eq!(with_opt.atom_table, without.atom_table);
    assert_eq!(with_opt.atom_count, without.atom_count);
    assert_eq!(with_opt.shell_table, without.shell_table);
    assert_eq!(with_opt.shell_count, without.shell_count);
    assert_eq!(with_opt.dims_supplied, without.dims_supplied);
    assert_eq!(with_opt.cache_supplied, without.cache_supplied);
    assert_eq!(with_opt.optimizer, HandleKind::Owning);
    assert_eq!(without.optimizer, HandleKind::NonOwning);

    // The constructor saw the very same tables.
    assert_eq!(build.atom_table, with_opt.atom_table);
    assert_eq!(build.shell_table, with_opt.shell_table);

    // Letting the handle go releases the native object exactly once.
    assert!(state.release());
    assert!(!state.release());
}
