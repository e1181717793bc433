use vstd::prelude::*;

use crate::backend::{Backend, EntryPoint};
use crate::error_types::{MKLPardisoError, PardisoError};
use crate::session::{InitRequest, PardisoData, SessionModel, SolveRequest};

verus! {

/// The MKL threading domain of PARDISO (`MKL_DOMAIN_PARDISO` in `mkl_types.h`).
pub const MKL_DOMAIN_PARDISO: i32 = 4;

/// One call of MKL's thread-control entry points, with its arguments.
#[derive(Debug, Clone, Copy, PartialEq, Eq, Structural)]
pub enum MklThreadCall {
    /// Sets the number of threads for the whole process.
    SetNumThreads { num_threads: i32 },
    /// Sets the number of threads for the calling thread; overrides the global setting.
    SetNumThreadsLocal { num_threads: i32 },
    /// Sets the number of threads of one MKL domain.
    DomainSetNumThreads { num_threads: i32, domain: i32 },
    /// Reads the number of threads available to MKL.
    GetMaxThreads,
    /// Reads the number of threads available to one MKL domain.
    DomainGetMaxThreads { domain: i32 },
    /// Lets MKL choose fewer threads than requested (nonzero) or not (zero).
    SetDynamic { dynamic: i32 },
}

impl MklThreadCall {
    pub open spec fn spec_entry_point(self) -> EntryPoint {
        match self {
            MklThreadCall::SetNumThreads { .. } => EntryPoint::MklSetNumThreads,
            MklThreadCall::SetNumThreadsLocal { .. } => EntryPoint::MklSetNumThreadsLocal,
            MklThreadCall::DomainSetNumThreads { .. } => EntryPoint::MklDomainSetNumThreads,
            MklThreadCall::GetMaxThreads => EntryPoint::MklGetMaxThreads,
            MklThreadCall::DomainGetMaxThreads { .. } => EntryPoint::MklDomainGetMaxThreads,
            MklThreadCall::SetDynamic { .. } => EntryPoint::MklSetDynamic,
        }
    }

    /// The entry point that performs this call.
    pub fn entry_point(&self) -> (r: EntryPoint)
        ensures
            r == self.spec_entry_point(),
            Backend::Mkl.spec_entry_points().contains(r),
    {
        match self {
            MklThreadCall::SetNumThreads { .. } => EntryPoint::MklSetNumThreads,
            MklThreadCall::SetNumThreadsLocal { .. } => EntryPoint::MklSetNumThreadsLocal,
            MklThreadCall::DomainSetNumThreads { .. } => EntryPoint::MklDomainSetNumThreads,
            MklThreadCall::GetMaxThreads => EntryPoint::MklGetMaxThreads,
            MklThreadCall::DomainGetMaxThreads { .. } => EntryPoint::MklDomainGetMaxThreads,
            MklThreadCall::SetDynamic { .. } => EntryPoint::MklSetDynamic,
        }
    }
}

/// A thread-control call when the MKL symbol table is available, the load failure
/// otherwise.
pub open spec fn spec_thread_call(loaded: bool, call: MklThreadCall) -> Result<
    MklThreadCall,
    MKLPardisoError,
> {
    if loaded {
        Ok(call)
    } else {
        Err(MKLPardisoError::LibraryLoadFailure)
    }
}

/// A session of Intel MKL PARDISO. It holds the session state; the native calls are made
/// with the requests that its methods return, and their status is read back with
/// `status_result`.
#[derive(Debug)]
pub struct MKLPardisoSolver {
    data: PardisoData,
}

impl View for MKLPardisoSolver {
    type V = SessionModel;

    closed spec fn view(&self) -> SessionModel {
        self.data@
    }
}

impl MKLPardisoSolver {
    /// Creates a session with zeroed, default state, if the MKL symbol table is
    /// available (`loaded`).
    pub fn new(loaded: bool) -> (r: Result<Self, PardisoError>)
        ensures
            loaded ==> (r matches Ok(s) && s@ == SessionModel::initial()),
            !loaded ==> r == Err::<Self, PardisoError>(
                PardisoError::MKL(MKLPardisoError::LibraryLoadFailure),
            ),
    {
        match Backend::Mkl.admission(loaded, Self::is_licensed()) {
            Ok(()) => Ok(MKLPardisoSolver { data: PardisoData::default() }),
            Err(e) => Err(e),
        }
    }

    pub fn data(&self) -> (r: &PardisoData)
        ensures
            r@ == self@,
    {
        &self.data
    }

    pub fn data_mut(&mut self) -> (r: &mut PardisoData)
        ensures
            r@ == old(self)@,
            final(self)@ == final(r)@,
    {
        &mut self.data
    }

    pub fn name(&self) -> (r: &'static str)
        ensures
            r@ == Backend::Mkl.spec_name(),
    {
        Backend::Mkl.name()
    }

    /// MKL needs no license.
    pub fn is_licensed() -> (r: bool)
        ensures
            r,
    {
        true
    }

    /// The native initialization that fills the parameter bank with the defaults of the
    /// current matrix type. MKL's initialization reports no status.
    pub fn pardisoinit_request(&self) -> (r: InitRequest)
        ensures
            r == self@.init_request(),
    {
        self.data.init_request()
    }

    /// The native solve call for the current phase, for `n` equations and `nrhs`
    /// right-hand sides.
    pub fn pardiso_request(&self, n: i32, nrhs: i32) -> (r: SolveRequest)
        ensures
            r == self@.solve_request(n, nrhs),
    {
        self.data.solve_request(n, nrhs)
    }

    /// The outcome of a native call that reported `status`.
    pub fn status_result(status: i32) -> (r: Result<(), PardisoError>)
        ensures
            status == 0 ==> r == Ok::<(), PardisoError>(()),
            status != 0 ==> r == Err::<(), PardisoError>(
                PardisoError::MKL(MKLPardisoError::spec_from_code(status)),
            ),
    {
        Backend::Mkl.status_result(status)
    }

    /// Selects the full-release phase and returns the call that frees the session's
    /// native resources; its status is to be ignored.
    pub fn release_request(&mut self) -> (r: SolveRequest)
        ensures
            final(self)@ == old(self)@.released(),
            r == old(self)@.release_request(),
    {
        self.data.release_request()
    }

    /// The session's thread count: the threads available to MKL for the calling thread.
    pub fn get_num_threads(&self, loaded: bool) -> (r: Result<MklThreadCall, PardisoError>)
        ensures
            loaded ==> r == Ok::<MklThreadCall, PardisoError>(MklThreadCall::GetMaxThreads),
            !loaded ==> r == Err::<MklThreadCall, PardisoError>(
                PardisoError::MKL(MKLPardisoError::LibraryLoadFailure),
            ),
    {
        match Self::mkl_get_max_threads(loaded) {
            Ok(call) => Ok(call),
            Err(e) => Err(PardisoError::MKL(e)),
        }
    }

    /// Sets the session's thread count, for the calling thread; the native call returns
    /// the previous count.
    pub fn set_num_threads(&mut self, loaded: bool, num_threads: i32) -> (r: Result<
        MklThreadCall,
        PardisoError,
    >)
        ensures
            final(self)@ == old(self)@,
            loaded ==> r == Ok::<MklThreadCall, PardisoError>(
                MklThreadCall::SetNumThreadsLocal { num_threads },
            ),
            !loaded ==> r == Err::<MklThreadCall, PardisoError>(
                PardisoError::MKL(MKLPardisoError::LibraryLoadFailure),
            ),
    {
        match Self::mkl_set_num_threads_local(loaded, num_threads) {
            Ok(call) => Ok(call),
            Err(e) => Err(PardisoError::MKL(e)),
        }
    }

    fn thread_call(loaded: bool, call: MklThreadCall) -> (r: Result<MklThreadCall, MKLPardisoError>)
        ensures
            r == spec_thread_call(loaded, call),
    {
        if loaded {
            Ok(call)
        } else {
            Err(MKLPardisoError::LibraryLoadFailure)
        }
    }

    /// Sets the number of threads for the whole process.
    pub fn mkl_set_num_threads(loaded: bool, num_threads: i32) -> (r: Result<
        MklThreadCall,
        MKLPardisoError,
    >)
        ensures
            r == spec_thread_call(loaded, MklThreadCall::SetNumThreads { num_threads }),
    {
        Self::thread_call(loaded, MklThreadCall::SetNumThreads { num_threads })
    }

    /// Sets the number of threads for the calling thread, which overrides the global
    /// setting and is what `mkl_get_max_threads` then reports.
    pub fn mkl_set_num_threads_local(loaded: bool, num_threads: i32) -> (r: Result<
        MklThreadCall,
        MKLPardisoError,
    >)
        ensures
            r == spec_thread_call(loaded, MklThreadCall::SetNumThreadsLocal { num_threads }),
    {
        Self::thread_call(loaded, MklThreadCall::SetNumThreadsLocal { num_threads })
    }

    /// Sets the number of threads of the PARDISO domain only.
    pub fn mkl_set_num_threads_pardiso(loaded: bool, num_threads: i32) -> (r: Result<
        MklThreadCall,
        MKLPardisoError,
    >)
        ensures
            r == spec_thread_call(
                loaded,
                MklThreadCall::DomainSetNumThreads { num_threads, domain: MKL_DOMAIN_PARDISO },
            ),
    {
        Self::thread_call(
            loaded,
            MklThreadCall::DomainSetNumThreads { num_threads, domain: MKL_DOMAIN_PARDISO },
        )
    }

    /// Reads the number of threads available to MKL.
    pub fn mkl_get_max_threads(loaded: bool) -> (r: Result<MklThreadCall, MKLPardisoError>)
        ensures
            r == spec_thread_call(loaded, MklThreadCall::GetMaxThreads),
    {
        Self::thread_call(loaded, MklThreadCall::GetMaxThreads)
    }

    /// Reads the number of threads available to the PARDISO domain, which environment
    /// variables or a thread-local setting may limit.
    pub fn mkl_get_max_threads_pardiso(loaded: bool) -> (r: Result<MklThreadCall, MKLPardisoError>)
        ensures
            r == spec_thread_call(
                loaded,
                MklThreadCall::DomainGetMaxThreads { domain: MKL_DOMAIN_PARDISO },
            ),
    {
        Self::thread_call(loaded, MklThreadCall::DomainGetMaxThreads { domain: MKL_DOMAIN_PARDISO })
    }

    /// Lets MKL use fewer threads than requested (`dynamic` nonzero) or not.
    pub fn mkl_set_dynamic(loaded: bool, dynamic: i32) -> (r: Result<MklThreadCall, MKLPardisoError>)
        ensures
            r == spec_thread_call(loaded, MklThreadCall::SetDynamic { dynamic }),
    {
        Self::thread_call(loaded, MklThreadCall::SetDynamic { dynamic })
    }
}

} // verus!
