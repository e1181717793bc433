use vstd::prelude::*;

use crate::error_types::{MKLPardisoError, PanuaPardisoError, PardisoError};

verus! {

/// One of the two native PARDISO implementations.
#[derive(Debug, Clone, Copy, PartialEq, Eq, Structural)]
pub enum Backend {
    Mkl,
    Panua,
}

/// An entry point that a backend's shared library exports.
#[derive(Debug, Clone, Copy, PartialEq, Eq, Structural)]
pub enum EntryPoint {
    Pardiso,
    PardisoInit,
    MklSetNumThreads,
    MklSetNumThreadsLocal,
    MklDomainSetNumThreads,
    MklGetMaxThreads,
    MklDomainGetMaxThreads,
    MklSetDynamic,
    PardisoChkMatrix,
    PardisoChkVec,
    PardisoPrintStats,
}

impl EntryPoint {
    pub open spec fn spec_symbol(self) -> Seq<char> {
        match self {
            EntryPoint::Pardiso => "pardiso_"@,
            EntryPoint::PardisoInit => "pardisoinit_"@,
            EntryPoint::MklSetNumThreads => "mkl_set_num_threads"@,
            EntryPoint::MklSetNumThreadsLocal => "mkl_set_num_threads_local"@,
            EntryPoint::MklDomainSetNumThreads => "mkl_domain_set_num_threads"@,
            EntryPoint::MklGetMaxThreads => "mkl_get_max_threads"@,
            EntryPoint::MklDomainGetMaxThreads => "mkl_domain_get_max_threads"@,
            EntryPoint::MklSetDynamic => "mkl_set_dynamic"@,
            EntryPoint::PardisoChkMatrix => "pardiso_chkmatrix_"@,
            EntryPoint::PardisoChkVec => "pardiso_chkvec_"@,
            EntryPoint::PardisoPrintStats => "pardiso_printstats_"@,
        }
    }

    /// The exported name under which the entry point is looked up.
    pub fn symbol(&self) -> (r: &'static str)
        ensures
            r@ == self.spec_symbol(),
    {
        match self {
            EntryPoint::Pardiso => "pardiso_",
            EntryPoint::PardisoInit => "pardisoinit_",
            EntryPoint::MklSetNumThreads => "mkl_set_num_threads",
            EntryPoint::MklSetNumThreadsLocal => "mkl_set_num_threads_local",
            EntryPoint::MklDomainSetNumThreads => "mkl_domain_set_num_threads",
            EntryPoint::MklGetMaxThreads => "mkl_get_max_threads",
            EntryPoint::MklDomainGetMaxThreads => "mkl_domain_get_max_threads",
            EntryPoint::MklSetDynamic => "mkl_set_dynamic",
            EntryPoint::PardisoChkMatrix => "pardiso_chkmatrix_",
            EntryPoint::PardisoChkVec => "pardiso_chkvec_",
            EntryPoint::PardisoPrintStats => "pardiso_printstats_",
        }
    }
}

impl Backend {
    pub open spec fn spec_name(self) -> Seq<char> {
        match self {
            Backend::Mkl => "mkl"@,
            Backend::Panua => "panua"@,
        }
    }

    /// Every entry point that must resolve before the backend counts as available, in
    /// the order of its symbol table.
    pub open spec fn spec_entry_points(self) -> Seq<EntryPoint> {
        match self {
            Backend::Mkl => seq![
                EntryPoint::Pardiso,
                EntryPoint::PardisoInit,
                EntryPoint::MklSetNumThreads,
                EntryPoint::MklSetNumThreadsLocal,
                EntryPoint::MklDomainSetNumThreads,
                EntryPoint::MklGetMaxThreads,
                EntryPoint::MklDomainGetMaxThreads,
                EntryPoint::MklSetDynamic,
            ],
            Backend::Panua => seq![
                EntryPoint::Pardiso,
                EntryPoint::PardisoInit,
                EntryPoint::PardisoChkMatrix,
                EntryPoint::PardisoChkVec,
                EntryPoint::PardisoPrintStats,
            ],
        }
    }

    /// The error that native status `c` of this backend stands for.
    pub open spec fn spec_error(self, c: i32) -> PardisoError {
        match self {
            Backend::Mkl => PardisoError::MKL(MKLPardisoError::spec_from_code(c)),
            Backend::Panua => PardisoError::Panua(PanuaPardisoError::spec_from_code(c)),
        }
    }

    /// The error reported when the backend's library or symbols are unavailable.
    pub open spec fn spec_load_failure(self) -> PardisoError {
        match self {
            Backend::Mkl => PardisoError::MKL(MKLPardisoError::LibraryLoadFailure),
            Backend::Panua => PardisoError::Panua(PanuaPardisoError::LibraryLoadFailure),
        }
    }

    /// Whether a session may be created: the library must be loaded, and for Panua the
    /// license probe must have been positive. MKL needs no license.
    pub open spec fn spec_admission(self, loaded: bool, licensed: bool) -> Result<(), PardisoError> {
        if !loaded {
            Err(self.spec_load_failure())
        } else if self is Panua && !licensed {
            Err(PardisoError::Panua(PanuaPardisoError::LibraryLicenseFailure))
        } else {
            Ok(())
        }
    }

    pub fn name(&self) -> (r: &'static str)
        ensures
            r@ == self.spec_name(),
    {
        match self {
            Backend::Mkl => "mkl",
            Backend::Panua => "panua",
        }
    }

    pub fn entry_points(&self) -> (r: Vec<EntryPoint>)
        ensures
            r@ == self.spec_entry_points(),
    {
        let r = match self {
            Backend::Mkl => vec![
                EntryPoint::Pardiso,
                EntryPoint::PardisoInit,
                EntryPoint::MklSetNumThreads,
                EntryPoint::MklSetNumThreadsLocal,
                EntryPoint::MklDomainSetNumThreads,
                EntryPoint::MklGetMaxThreads,
                EntryPoint::MklDomainGetMaxThreads,
                EntryPoint::MklSetDynamic,
            ],
            Backend::Panua => vec![
                EntryPoint::Pardiso,
                EntryPoint::PardisoInit,
                EntryPoint::PardisoChkMatrix,
                EntryPoint::PardisoChkVec,
                EntryPoint::PardisoPrintStats,
            ],
        };
        assert(r@ =~= self.spec_entry_points());
        r
    }

    /// The outcome of a native call that reported status `status`: zero is success, any
    /// other value is this backend's error for it.
    pub fn status_result(&self, status: i32) -> (r: Result<(), PardisoError>)
        ensures
            status == 0 ==> r == Ok::<(), PardisoError>(()),
            status != 0 ==> r == Err::<(), PardisoError>(self.spec_error(status)),
    {
        if status == 0 {
            Ok(())
        } else {
            match self {
                Backend::Mkl => Err(PardisoError::MKL(MKLPardisoError::from_code(status))),
                Backend::Panua => Err(PardisoError::Panua(PanuaPardisoError::from_code(status))),
            }
        }
    }

    /// The error reported when the backend's library or symbols are unavailable.
    pub fn load_failure(&self) -> (r: PardisoError)
        ensures
            r == self.spec_load_failure(),
    {
        match self {
            Backend::Mkl => PardisoError::MKL(MKLPardisoError::LibraryLoadFailure),
            Backend::Panua => PardisoError::Panua(PanuaPardisoError::LibraryLoadFailure),
        }
    }

    /// Decides whether a session may be created, given whether the symbol table is
    /// available and whether the backend is licensed.
    pub fn admission(&self, loaded: bool, licensed: bool) -> (r: Result<(), PardisoError>)
        ensures
            r == self.spec_admission(loaded, licensed),
    {
        if !loaded {
            Err(self.load_failure())
        } else if !licensed && *self == Backend::Panua {
            Err(PardisoError::Panua(PanuaPardisoError::LibraryLicenseFailure))
        } else {
            Ok(())
        }
    }
}

/// Without a loaded symbol table no session of either backend can be created, licensed
/// or not: creation reports the backend's load failure.
pub proof fn lemma_unloaded_backend_refuses_sessions(b: Backend, licensed: bool)
    ensures
        b.spec_admission(false, licensed) == Err::<(), PardisoError>(b.spec_load_failure()),
        b is Mkl ==> b.spec_load_failure() == PardisoError::MKL(MKLPardisoError::LibraryLoadFailure),
        b is Panua ==> b.spec_load_failure() == PardisoError::Panua(
            PanuaPardisoError::LibraryLoadFailure,
        ),
{
}

} // verus!
