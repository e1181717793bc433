use pardiso_wrapper::{
    InitRequest, MatrixType, MessageLevel, PardisoData, Phase, SolveRequest, SolverType,
};

#[test]
fn new_state_is_zeroed_with_defaults() {
    let d = PardisoData::default();
    assert_eq!(d.pt, [0isize; 64]);
    assert_eq!(d.get_iparms(), &[0i32; 64]);
    assert_eq!(d.get_matrix_type(), MatrixType::RealSymmetricIndefinite);
    assert_eq!(d.get_solver(), SolverType::Direct);
    assert_eq!(d.get_phase(), Phase::Analysis);
    assert_eq!(d.get_message_level(), MessageLevel::Off);
    assert_eq!(d.get_maxfct(), 1);
    assert_eq!(d.get_mnum(), 1);
    assert!(d.get_perm().is_empty());
}

#[test]
fn permutation_reads_back_and_is_replaced_wholesale() {
    let mut d = PardisoData::default();
    d.set_perm(&[3, 1, 2, 0]);
    assert_eq!(d.get_perm(), &[3, 1, 2, 0]);
    d.set_perm(&[1, 0]);
    assert_eq!(d.get_perm(), &[1, 0]);
    d.set_perm(&[4, 3, 2, 1, 0, 5]);
    assert_eq!(d.get_perm(), &[4, 3, 2, 1, 0, 5]);
    d.set_perm(&[]);
    assert!(d.get_perm().is_empty());
}

#[test]
fn selectors_are_set_and_read() {
    let mut d = PardisoData::default();
    d.set_matrix_type(MatrixType::ComplexHermitianIndefinite);
    d.set_solver(SolverType::Iterative);
    d.set_phase(Phase::NumFact);
    d.set_message_level(MessageLevel::On);
    d.set_maxfct(3);
    d.set_mnum(2);
    assert_eq!(d.get_matrix_type(), MatrixType::ComplexHermitianIndefinite);
    assert_eq!(d.get_solver(), SolverType::Iterative);
    assert_eq!(d.get_phase(), Phase::NumFact);
    assert_eq!(d.get_message_level(), MessageLevel::On);
    assert_eq!(d.get_maxfct(), 3);
    assert_eq!(d.get_mnum(), 2);
}

#[test]
fn parameter_slots() {
    let mut d = PardisoData::default();
    d.set_iparm(0, 1);
    d.set_iparm(63, -5);
    d.set_iparm(2, 8);
    d.set_iparm(21, 3);
    d.set_iparm(22, 1);
    assert_eq!(d.get_iparm(0), 1);
    assert_eq!(d.get_iparm(63), -5);
    assert_eq!(d.get_iparms()[1], 0);
    assert_eq!(d.get_threads_used(), 8);
    assert_eq!(d.get_num_positive_eigenvalues(), 3);
    assert_eq!(d.get_num_negative_eigenvalues(), 1);
}

#[test]
fn requests_carry_the_current_state() {
    let mut d = PardisoData::default();
    assert_eq!(d.init_request(), InitRequest { mtype: -2, solver: 0 });
    d.set_matrix_type(MatrixType::RealNonsymmetric);
    d.set_solver(SolverType::Iterative);
    assert_eq!(d.init_request(), InitRequest { mtype: 11, solver: 1 });
    d.set_phase(Phase::SolveIterativeRefine);
    d.set_message_level(MessageLevel::On);
    d.set_maxfct(2);
    assert_eq!(
        d.solve_request(4, 3),
        SolveRequest { maxfct: 2, mnum: 1, mtype: 11, phase: 33, n: 4, nrhs: 3, msglvl: 1 }
    );
}

#[test]
fn release_twice_is_the_same_as_once() {
    let mut d = PardisoData::default();
    d.set_phase(Phase::NumFact);
    d.set_perm(&[0, 1, 2]);
    let first = d.release_request();
    assert_eq!(d.get_phase(), Phase::ReleaseAll);
    let second = d.release_request();
    assert_eq!(first, second);
    assert_eq!(
        first,
        SolveRequest { maxfct: 1, mnum: 1, mtype: -2, phase: -1, n: 0, nrhs: 0, msglvl: 0 }
    );
    assert_eq!(d.get_phase(), Phase::ReleaseAll);
    assert_eq!(d.get_perm(), &[0, 1, 2]);
}
