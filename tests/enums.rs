use pardiso_wrapper::{MatrixType, MessageLevel, Phase, SolverType};

const ALL_TYPES: [MatrixType; 9] = [
    MatrixType::RealStructurallySymmetric,
    MatrixType::RealSymmetricPositiveDefinite,
    MatrixType::RealSymmetricIndefinite,
    MatrixType::ComplexStructurallySymmetric,
    MatrixType::ComplexHermitianPositiveDefinite,
    MatrixType::ComplexHermitianIndefinite,
    MatrixType::ComplexSymmetric,
    MatrixType::RealNonsymmetric,
    MatrixType::ComplexNonsymmetric,
];

#[test]
fn real_and_complex_are_complements() {
    for t in ALL_TYPES {
        assert_ne!(t.is_real(), t.is_complex(), "{:?}", t);
    }
    let real: Vec<MatrixType> = ALL_TYPES.iter().copied().filter(|t| t.is_real()).collect();
    assert_eq!(
        real,
        vec![
            MatrixType::RealStructurallySymmetric,
            MatrixType::RealSymmetricPositiveDefinite,
            MatrixType::RealSymmetricIndefinite,
            MatrixType::RealNonsymmetric,
        ]
    );
}

#[test]
fn hermitian_classes() {
    let hermitian: Vec<MatrixType> = ALL_TYPES.iter().copied().filter(|t| t.is_hermitian()).collect();
    assert_eq!(
        hermitian,
        vec![
            MatrixType::RealSymmetricPositiveDefinite,
            MatrixType::RealSymmetricIndefinite,
            MatrixType::ComplexHermitianPositiveDefinite,
            MatrixType::ComplexHermitianIndefinite,
        ]
    );
    let symmetric: Vec<MatrixType> = ALL_TYPES.iter().copied().filter(|t| t.is_symmetric()).collect();
    assert_eq!(
        symmetric,
        vec![
            MatrixType::RealSymmetricPositiveDefinite,
            MatrixType::RealSymmetricIndefinite,
            MatrixType::ComplexSymmetric,
        ]
    );
}

#[test]
fn native_codes() {
    let codes: Vec<i32> = ALL_TYPES.iter().map(|t| t.code()).collect();
    assert_eq!(codes, vec![1, 2, -2, 3, 4, -4, 6, 11, 13]);
    let phases = [
        Phase::Analysis,
        Phase::AnalysisNumFact,
        Phase::AnalysisNumFactSolveRefine,
        Phase::NumFact,
        Phase::SelectedInversion,
        Phase::NumFactSolveRefine,
        Phase::SolveIterativeRefine,
        Phase::SolveIterativeRefineOnlyForward,
        Phase::SolveIterativeRefineOnlyDiag,
        Phase::SolveIterativeRefineOnlyBackward,
        Phase::ReleaseLUandMNUM,
        Phase::ReleaseAll,
    ];
    let codes: Vec<i32> = phases.iter().map(|p| p.code()).collect();
    assert_eq!(codes, vec![11, 12, 13, 22, -22, 23, 33, 331, 332, 333, 0, -1]);
    assert_eq!(MessageLevel::Off.code(), 0);
    assert_eq!(MessageLevel::On.code(), 1);
    assert_eq!(SolverType::Direct.code(), 0);
    assert_eq!(SolverType::Iterative.code(), 1);
}

#[test]
fn defaults() {
    assert_eq!(MatrixType::default(), MatrixType::RealSymmetricIndefinite);
    assert_eq!(Phase::default(), Phase::Analysis);
    assert_eq!(MessageLevel::default(), MessageLevel::Off);
    assert_eq!(SolverType::default(), SolverType::Direct);
}

#[test]
fn readable_names() {
    assert_eq!(MatrixType::RealSymmetricIndefinite.name(), "Real Symmetric Indefinite");
    assert_eq!(MatrixType::ComplexNonsymmetric.name(), "Complex Nonsymmetric");
    assert_eq!(
        Phase::AnalysisNumFactSolveRefine.name(),
        "Analysis, Numerical Factorization, and Solve with Refine"
    );
    assert_eq!(Phase::SolveIterativeRefineOnlyDiag.name(), "Solve with Iterative Refinement (Diagonal)");
    assert_eq!(Phase::ReleaseAll.name(), "Release All");
}
