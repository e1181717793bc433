//! Verified session layer for the PARDISO sparse direct solver.
//!
//! The numerical work happens in a native shared library (Intel MKL or Panua PARDISO)
//! that is loaded at run time. This crate holds everything around that call that can
//! be stated and proved: the enumerations and their native codes, the per-session state
//! and its accessors, the scalar arguments of each native call, the mapping of native
//! status codes to errors, where the shared library is searched for, and how its symbol
//! table is assembled.

mod backend;
mod enums;
mod error_types;
mod locator;
mod mkl;
mod panua;
mod session;
mod symbols;

pub use backend::{lemma_unloaded_backend_refuses_sessions, Backend, EntryPoint};
pub use enums::{
    lemma_matrix_type_classes, lemma_matrix_type_codes_distinct, lemma_phase_codes_distinct,
    MatrixType, MessageLevel, Phase, SolverType,
};
pub use error_types::{
    lemma_status_code_round_trip, lemma_unknown_code_unrecognized, MKLPardisoError,
    PanuaPardisoError, PardisoError,
};
pub use locator::{search_plan, spec_fallback_dirs, Platform, SearchEnv, SearchPlan};
pub use mkl::{spec_thread_call, MKLPardisoSolver, MklThreadCall, MKL_DOMAIN_PARDISO};
pub use panua::{panua_is_licensed, panua_status, spec_license_probe};
pub use session::{
    lemma_perm_replaced, lemma_release_idempotent, InitRequest, PardisoData, SessionModel,
    SolveRequest, IPARM_NEGATIVE_EIGENVALUES, IPARM_POSITIVE_EIGENVALUES, IPARM_THREADS_USED,
    PARAM_SLOTS,
};
pub use symbols::SymbolTable;
