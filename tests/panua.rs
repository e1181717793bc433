use pardiso_wrapper::{panua_is_licensed, panua_status, Backend, PanuaPardisoError, PardisoError};

#[test]
fn license_probe_outcomes() {
    assert_eq!(panua_is_licensed(None), Ok(false));
    assert_eq!(panua_is_licensed(Some(0)), Ok(true));
    assert_eq!(panua_is_licensed(Some(-10)), Ok(false));
    assert_eq!(panua_is_licensed(Some(-11)), Ok(false));
    assert_eq!(panua_is_licensed(Some(-12)), Err(PanuaPardisoError::WrongUsernameOrHostname));
    assert_eq!(panua_is_licensed(Some(-1)), Err(PanuaPardisoError::InputInconsistent));
    assert_eq!(panua_is_licensed(Some(-4242)), Err(PanuaPardisoError::UnrecognizedError));
}

#[test]
fn panua_admission() {
    assert_eq!(
        Backend::Panua.admission(false, true),
        Err(PardisoError::Panua(PanuaPardisoError::LibraryLoadFailure))
    );
    assert_eq!(
        Backend::Panua.admission(false, false),
        Err(PardisoError::Panua(PanuaPardisoError::LibraryLoadFailure))
    );
    assert_eq!(
        Backend::Panua.admission(true, false),
        Err(PardisoError::Panua(PanuaPardisoError::LibraryLicenseFailure))
    );
    assert_eq!(Backend::Panua.admission(true, true), Ok(()));
    assert_eq!(Backend::Mkl.admission(true, false), Ok(()));
    assert_eq!(
        Backend::Mkl.admission(false, true),
        Err(PardisoError::MKL(pardiso_wrapper::MKLPardisoError::LibraryLoadFailure))
    );
    assert_eq!(Backend::Panua.name(), "panua");
}

#[test]
fn panua_status_codes() {
    assert_eq!(panua_status(0), Ok(()));
    assert_eq!(panua_status(-3), Err(PanuaPardisoError::ReorderingProblem));
    assert_eq!(panua_status(-102), Err(PanuaPardisoError::KrylovIterationError));
    assert_eq!(panua_status(5), Err(PanuaPardisoError::UnrecognizedError));
}
