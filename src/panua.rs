use vstd::prelude::*;

use crate::error_types::PanuaPardisoError;

verus! {

/// What the license probe shows. `probe` is `None` where the Panua symbol table is
/// unavailable, and otherwise the status that the native initialization reported on
/// disposable, zeroed state with the default matrix type and solver. A missing or
/// expired license means "not licensed"; any other failure is a configuration error
/// that the probe cannot interpret.
pub open spec fn spec_license_probe(probe: Option<i32>) -> Result<bool, PanuaPardisoError> {
    match probe {
        None => Ok(false),
        Some(status) => if status == 0 {
            Ok(true)
        } else {
            let e = PanuaPardisoError::spec_from_code(status);
            if e is NoLicenseFile || e is LicenseExpired {
                Ok(false)
            } else {
                Err(e)
            }
        },
    }
}

/// Interprets the license probe; see `spec_license_probe`. The caller performs the
/// probe once per process and keeps the answer.
pub fn panua_is_licensed(probe: Option<i32>) -> (r: Result<bool, PanuaPardisoError>)
    ensures
        r == spec_license_probe(probe),
{
    match probe {
        None => Ok(false),
        Some(status) => {
            if status == 0 {
                Ok(true)
            } else {
                let e = PanuaPardisoError::from_code(status);
                match e {
                    PanuaPardisoError::NoLicenseFile | PanuaPardisoError::LicenseExpired => Ok(
                        false,
                    ),
                    _ => Err(e),
                }
            }
        },
    }
}

/// The outcome of a Panua call that reported `status`, for the calls whose errors are
/// Panua's own: zero is success, any other status is its condition.
pub fn panua_status(status: i32) -> (r: Result<(), PanuaPardisoError>)
    ensures
        status == 0 ==> r == Ok::<(), PanuaPardisoError>(()),
        status != 0 ==> r == Err::<(), PanuaPardisoError>(PanuaPardisoError::spec_from_code(status)),
{
    if status == 0 {
        Ok(())
    } else {
        Err(PanuaPardisoError::from_code(status))
    }
}

} // verus!
