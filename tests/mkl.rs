use pardiso_wrapper::{
    EntryPoint, MKLPardisoError, MKLPardisoSolver, MatrixType, MklThreadCall, PardisoError, Phase,
    SolveRequest, MKL_DOMAIN_PARDISO,
};

#[test]
fn session_needs_the_library() {
    let r = MKLPardisoSolver::new(false);
    assert_eq!(r.err(), Some(PardisoError::MKL(MKLPardisoError::LibraryLoadFailure)));
}

#[test]
fn new_session_has_default_state() {
    let s = MKLPardisoSolver::new(true).unwrap();
    assert_eq!(s.data().get_matrix_type(), MatrixType::RealSymmetricIndefinite);
    assert_eq!(s.data().get_maxfct(), 1);
    assert_eq!(s.data().get_mnum(), 1);
    assert_eq!(s.name(), "mkl");
    assert!(MKLPardisoSolver::is_licensed());
}

#[test]
fn session_requests() {
    let mut s = MKLPardisoSolver::new(true).unwrap();
    s.data_mut().set_phase(Phase::NumFact);
    assert_eq!(s.pardisoinit_request().mtype, -2);
    assert_eq!(
        s.pardiso_request(4, 3),
        SolveRequest { maxfct: 1, mnum: 1, mtype: -2, phase: 22, n: 4, nrhs: 3, msglvl: 0 }
    );
    assert_eq!(MKLPardisoSolver::status_result(0), Ok(()));
    assert_eq!(
        MKLPardisoSolver::status_result(-4),
        Err(PardisoError::MKL(MKLPardisoError::ZeroPivot))
    );
    assert_eq!(
        MKLPardisoSolver::status_result(-77),
        Err(PardisoError::MKL(MKLPardisoError::UnrecognizedError))
    );
    let release = s.release_request();
    assert_eq!(release.phase, -1);
    assert_eq!(s.release_request(), release);
}

#[test]
fn thread_calls() {
    assert_eq!(MKLPardisoSolver::mkl_set_num_threads(true, 2), Ok(MklThreadCall::SetNumThreads { num_threads: 2 }));
    assert_eq!(
        MKLPardisoSolver::mkl_set_num_threads_local(true, 4),
        Ok(MklThreadCall::SetNumThreadsLocal { num_threads: 4 })
    );
    assert_eq!(
        MKLPardisoSolver::mkl_set_num_threads_pardiso(true, 3),
        Ok(MklThreadCall::DomainSetNumThreads { num_threads: 3, domain: 4 })
    );
    assert_eq!(MKL_DOMAIN_PARDISO, 4);
    assert_eq!(MKLPardisoSolver::mkl_get_max_threads(true), Ok(MklThreadCall::GetMaxThreads));
    assert_eq!(
        MKLPardisoSolver::mkl_get_max_threads_pardiso(true),
        Ok(MklThreadCall::DomainGetMaxThreads { domain: 4 })
    );
    assert_eq!(MKLPardisoSolver::mkl_set_dynamic(true, 0), Ok(MklThreadCall::SetDynamic { dynamic: 0 }));
    let mut s = MKLPardisoSolver::new(true).unwrap();
    assert_eq!(s.set_num_threads(true, 4), Ok(MklThreadCall::SetNumThreadsLocal { num_threads: 4 }));
    assert_eq!(s.get_num_threads(true), Ok(MklThreadCall::GetMaxThreads));
}

#[test]
fn thread_calls_need_the_library() {
    let failure = Err(MKLPardisoError::LibraryLoadFailure);
    assert_eq!(MKLPardisoSolver::mkl_set_num_threads(false, 2), failure);
    assert_eq!(MKLPardisoSolver::mkl_set_num_threads_local(false, 2), failure);
    assert_eq!(MKLPardisoSolver::mkl_set_num_threads_pardiso(false, 2), failure);
    assert_eq!(MKLPardisoSolver::mkl_get_max_threads(false), failure);
    assert_eq!(MKLPardisoSolver::mkl_get_max_threads_pardiso(false), failure);
    assert_eq!(MKLPardisoSolver::mkl_set_dynamic(false, 1), failure);
    let mut s = MKLPardisoSolver::new(true).unwrap();
    let failure = Err(PardisoError::MKL(MKLPardisoError::LibraryLoadFailure));
    assert_eq!(s.set_num_threads(false, 4), failure);
    assert_eq!(s.get_num_threads(false), failure);
}

#[test]
fn thread_calls_name_their_entry_points() {
    assert_eq!(MklThreadCall::SetNumThreads { num_threads: 1 }.entry_point(), EntryPoint::MklSetNumThreads);
    assert_eq!(
        MklThreadCall::DomainGetMaxThreads { domain: 4 }.entry_point(),
        EntryPoint::MklDomainGetMaxThreads
    );
    assert_eq!(MklThreadCall::SetDynamic { dynamic: 1 }.entry_point(), EntryPoint::MklSetDynamic);
}
