use vstd::prelude::*;
use vstd::string::StringExecFns;

verus! {

/// Status codes of Panua PARDISO, and two conditions of this crate's own.
#[derive(Debug, Clone, Copy, PartialEq, Eq, Structural)]
pub enum PanuaPardisoError {
    InputInconsistent,
    NotEnoughMemory,
    ReorderingProblem,
    ZeroPivot,
    UnclassifiedError,
    PreorderingFailed,
    DiagonalMatrixProblem,
    IntegerOverflow,
    NoLicenseFile,
    LicenseExpired,
    WrongUsernameOrHostname,
    MaxKrylovIterations,
    InsufficientConvergence,
    KrylovIterationError,
    KrylovBreakdown,
    /// The shared library or one of its entry points could not be loaded.
    LibraryLoadFailure,
    /// The license probe found no valid license.
    LibraryLicenseFailure,
    /// A status code that no other variant stands for.
    UnrecognizedError,
}

impl PanuaPardisoError {
    pub open spec fn spec_code(self) -> i32 {
        match self {
            PanuaPardisoError::InputInconsistent => -1i32,
            PanuaPardisoError::NotEnoughMemory => -2i32,
            PanuaPardisoError::ReorderingProblem => -3i32,
            PanuaPardisoError::ZeroPivot => -4i32,
            PanuaPardisoError::UnclassifiedError => -5i32,
            PanuaPardisoError::PreorderingFailed => -6i32,
            PanuaPardisoError::DiagonalMatrixProblem => -7i32,
            PanuaPardisoError::IntegerOverflow => -8i32,
            PanuaPardisoError::NoLicenseFile => -10i32,
            PanuaPardisoError::LicenseExpired => -11i32,
            PanuaPardisoError::WrongUsernameOrHostname => -12i32,
            PanuaPardisoError::MaxKrylovIterations => -100i32,
            PanuaPardisoError::InsufficientConvergence => -101i32,
            PanuaPardisoError::KrylovIterationError => -102i32,
            PanuaPardisoError::KrylovBreakdown => -103i32,
            PanuaPardisoError::LibraryLoadFailure => -900i32,
            PanuaPardisoError::LibraryLicenseFailure => -901i32,
            PanuaPardisoError::UnrecognizedError => -999i32,
        }
    }

    /// The condition that status code `c` stands for; any other code is unrecognized.
    pub open spec fn spec_from_code(c: i32) -> Self {
        if c == -1 {
            PanuaPardisoError::InputInconsistent
        } else if c == -2 {
            PanuaPardisoError::NotEnoughMemory
        } else if c == -3 {
            PanuaPardisoError::ReorderingProblem
        } else if c == -4 {
            PanuaPardisoError::ZeroPivot
        } else if c == -5 {
            PanuaPardisoError::UnclassifiedError
        } else if c == -6 {
            PanuaPardisoError::PreorderingFailed
        } else if c == -7 {
            PanuaPardisoError::DiagonalMatrixProblem
        } else if c == -8 {
            PanuaPardisoError::IntegerOverflow
        } else if c == -10 {
            PanuaPardisoError::NoLicenseFile
        } else if c == -11 {
            PanuaPardisoError::LicenseExpired
        } else if c == -12 {
            PanuaPardisoError::WrongUsernameOrHostname
        } else if c == -100 {
            PanuaPardisoError::MaxKrylovIterations
        } else if c == -101 {
            PanuaPardisoError::InsufficientConvergence
        } else if c == -102 {
            PanuaPardisoError::KrylovIterationError
        } else if c == -103 {
            PanuaPardisoError::KrylovBreakdown
        } else if c == -900 {
            PanuaPardisoError::LibraryLoadFailure
        } else if c == -901 {
            PanuaPardisoError::LibraryLicenseFailure
        } else {
            PanuaPardisoError::UnrecognizedError
        }
    }

    pub open spec fn spec_message(self) -> Seq<char> {
        match self {
            PanuaPardisoError::InputInconsistent => "Input inconsistent."@,
            PanuaPardisoError::NotEnoughMemory => "Not enough memory."@,
            PanuaPardisoError::ReorderingProblem => "Reordering problem."@,
            PanuaPardisoError::ZeroPivot =>
                "Zero pivot, numerical factorization, or iterative refinement problem."@,
            PanuaPardisoError::UnclassifiedError => "Unclassified (internal) error."@,
            PanuaPardisoError::PreorderingFailed =>
                "Preordering failed (matrix types 11, 13 only)."@,
            PanuaPardisoError::DiagonalMatrixProblem => "Diagonal matrix problem."@,
            PanuaPardisoError::IntegerOverflow => "32-bit integer overflow problem."@,
            PanuaPardisoError::NoLicenseFile => "No license file panua.lic found."@,
            PanuaPardisoError::LicenseExpired => "License is expired."@,
            PanuaPardisoError::WrongUsernameOrHostname => "Wrong username or hostname."@,
            PanuaPardisoError::MaxKrylovIterations =>
                "Reached maximum number of Krylov-subspace iterations in iterative solver."@,
            PanuaPardisoError::InsufficientConvergence =>
                "No sufficient convergence in Krylov-subspace iteration within 25 iterations."@,
            PanuaPardisoError::KrylovIterationError => "Error in Krylov-subspace iteration."@,
            PanuaPardisoError::KrylovBreakdown => "Breakdown in Krylov-subspace iteration."@,
            PanuaPardisoError::LibraryLoadFailure => "Library load failure."@,
            PanuaPardisoError::LibraryLicenseFailure => "Library license failure."@,
            PanuaPardisoError::UnrecognizedError => "Unrecognized error code."@,
        }
    }

    /// The status code of this condition.
    pub fn code(&self) -> (r: i32)
        ensures
            r == self.spec_code(),
    {
        match self {
            PanuaPardisoError::InputInconsistent => -1,
            PanuaPardisoError::NotEnoughMemory => -2,
            PanuaPardisoError::ReorderingProblem => -3,
            PanuaPardisoError::ZeroPivot => -4,
            PanuaPardisoError::UnclassifiedError => -5,
            PanuaPardisoError::PreorderingFailed => -6,
            PanuaPardisoError::DiagonalMatrixProblem => -7,
            PanuaPardisoError::IntegerOverflow => -8,
            PanuaPardisoError::NoLicenseFile => -10,
            PanuaPardisoError::LicenseExpired => -11,
            PanuaPardisoError::WrongUsernameOrHostname => -12,
            PanuaPardisoError::MaxKrylovIterations => -100,
            PanuaPardisoError::InsufficientConvergence => -101,
            PanuaPardisoError::KrylovIterationError => -102,
            PanuaPardisoError::KrylovBreakdown => -103,
            PanuaPardisoError::LibraryLoadFailure => -900,
            PanuaPardisoError::LibraryLicenseFailure => -901,
            PanuaPardisoError::UnrecognizedError => -999,
        }
    }

    /// The condition that status code `c` stands for. Never fails: a code outside the
    /// table gives `UnrecognizedError`.
    pub fn from_code(c: i32) -> (r: Self)
        ensures
            r == Self::spec_from_code(c),
    {
        match c {
            -1 => PanuaPardisoError::InputInconsistent,
            -2 => PanuaPardisoError::NotEnoughMemory,
            -3 => PanuaPardisoError::ReorderingProblem,
            -4 => PanuaPardisoError::ZeroPivot,
            -5 => PanuaPardisoError::UnclassifiedError,
            -6 => PanuaPardisoError::PreorderingFailed,
            -7 => PanuaPardisoError::DiagonalMatrixProblem,
            -8 => PanuaPardisoError::IntegerOverflow,
            -10 => PanuaPardisoError::NoLicenseFile,
            -11 => PanuaPardisoError::LicenseExpired,
            -12 => PanuaPardisoError::WrongUsernameOrHostname,
            -100 => PanuaPardisoError::MaxKrylovIterations,
            -101 => PanuaPardisoError::InsufficientConvergence,
            -102 => PanuaPardisoError::KrylovIterationError,
            -103 => PanuaPardisoError::KrylovBreakdown,
            -900 => PanuaPardisoError::LibraryLoadFailure,
            -901 => PanuaPardisoError::LibraryLicenseFailure,
            _ => PanuaPardisoError::UnrecognizedError,
        }
    }

    /// A readable description of the condition.
    pub fn message(&self) -> (r: &'static str)
        ensures
            r@ == self.spec_message(),
    {
        match self {
            PanuaPardisoError::InputInconsistent => "Input inconsistent.",
            PanuaPardisoError::NotEnoughMemory => "Not enough memory.",
            PanuaPardisoError::ReorderingProblem => "Reordering problem.",
            PanuaPardisoError::ZeroPivot =>
                "Zero pivot, numerical factorization, or iterative refinement problem.",
            PanuaPardisoError::UnclassifiedError => "Unclassified (internal) error.",
            PanuaPardisoError::PreorderingFailed => "Preordering failed (matrix types 11, 13 only).",
            PanuaPardisoError::DiagonalMatrixProblem => "Diagonal matrix problem.",
            PanuaPardisoError::IntegerOverflow => "32-bit integer overflow problem.",
            PanuaPardisoError::NoLicenseFile => "No license file panua.lic found.",
            PanuaPardisoError::LicenseExpired => "License is expired.",
            PanuaPardisoError::WrongUsernameOrHostname => "Wrong username or hostname.",
            PanuaPardisoError::MaxKrylovIterations =>
                "Reached maximum number of Krylov-subspace iterations in iterative solver.",
            PanuaPardisoError::InsufficientConvergence =>
                "No sufficient convergence in Krylov-subspace iteration within 25 iterations.",
            PanuaPardisoError::KrylovIterationError => "Error in Krylov-subspace iteration.",
            PanuaPardisoError::KrylovBreakdown => "Breakdown in Krylov-subspace iteration.",
            PanuaPardisoError::LibraryLoadFailure => "Library load failure.",
            PanuaPardisoError::LibraryLicenseFailure => "Library license failure.",
            PanuaPardisoError::UnrecognizedError => "Unrecognized error code.",
        }
    }
}


/// Status codes of Intel MKL PARDISO, and one condition of this crate's own.
#[derive(Debug, Clone, Copy, PartialEq, Eq, Structural)]
pub enum MKLPardisoError {
    InputInconsistent,
    NotEnoughMemory,
    ReorderingProblem,
    ZeroPivot,
    UnclassifiedError,
    PreorderingFailed,
    DiagonalMatrixSingular,
    IntegerOverflow,
    NotEnoughMemoryOOC,
    ErrorOpeningOOCFiles,
    ReadWriteErrorOOCFiles,
    Pardiso64CalledFrom32BitLibrary,
    /// The shared library or one of its entry points could not be loaded.
    LibraryLoadFailure,
    /// A status code that no other variant stands for.
    UnrecognizedError,
}

impl MKLPardisoError {
    pub open spec fn spec_code(self) -> i32 {
        match self {
            MKLPardisoError::InputInconsistent => -1i32,
            MKLPardisoError::NotEnoughMemory => -2i32,
            MKLPardisoError::ReorderingProblem => -3i32,
            MKLPardisoError::ZeroPivot => -4i32,
            MKLPardisoError::UnclassifiedError => -5i32,
            MKLPardisoError::PreorderingFailed => -6i32,
            MKLPardisoError::DiagonalMatrixSingular => -7i32,
            MKLPardisoError::IntegerOverflow => -8i32,
            MKLPardisoError::NotEnoughMemoryOOC => -9i32,
            MKLPardisoError::ErrorOpeningOOCFiles => -10i32,
            MKLPardisoError::ReadWriteErrorOOCFiles => -11i32,
            MKLPardisoError::Pardiso64CalledFrom32BitLibrary => -12i32,
            MKLPardisoError::LibraryLoadFailure => -900i32,
            MKLPardisoError::UnrecognizedError => -999i32,
        }
    }

    /// The condition that status code `c` stands for; any other code is unrecognized.
    pub open spec fn spec_from_code(c: i32) -> Self {
        if c == -1 {
            MKLPardisoError::InputInconsistent
        } else if c == -2 {
            MKLPardisoError::NotEnoughMemory
        } else if c == -3 {
            MKLPardisoError::ReorderingProblem
        } else if c == -4 {
            MKLPardisoError::ZeroPivot
        } else if c == -5 {
            MKLPardisoError::UnclassifiedError
        } else if c == -6 {
            MKLPardisoError::PreorderingFailed
        } else if c == -7 {
            MKLPardisoError::DiagonalMatrixSingular
        } else if c == -8 {
            MKLPardisoError::IntegerOverflow
        } else if c == -9 {
            MKLPardisoError::NotEnoughMemoryOOC
        } else if c == -10 {
            MKLPardisoError::ErrorOpeningOOCFiles
        } else if c == -11 {
            MKLPardisoError::ReadWriteErrorOOCFiles
        } else if c == -12 {
            MKLPardisoError::Pardiso64CalledFrom32BitLibrary
        } else if c == -900 {
            MKLPardisoError::LibraryLoadFailure
        } else {
            MKLPardisoError::UnrecognizedError
        }
    }

    pub open spec fn spec_message(self) -> Seq<char> {
        match self {
            MKLPardisoError::InputInconsistent => "Input inconsistent."@,
            MKLPardisoError::NotEnoughMemory => "Not enough memory."@,
            MKLPardisoError::ReorderingProblem => "Reordering problem."@,
            MKLPardisoError::ZeroPivot =>
                "Zero pivot, numerical factorization, or iterative refinement problem."@,
            MKLPardisoError::UnclassifiedError => "Unclassified (internal) error."@,
            MKLPardisoError::PreorderingFailed => "Preordering failed (matrix types 11, 13 only)."@,
            MKLPardisoError::DiagonalMatrixSingular => "Diagonal matrix is singular."@,
            MKLPardisoError::IntegerOverflow => "32-bit integer overflow problem."@,
            MKLPardisoError::NotEnoughMemoryOOC => "Not enough memory for OOC."@,
            MKLPardisoError::ErrorOpeningOOCFiles => "Error opening OOC files."@,
            MKLPardisoError::ReadWriteErrorOOCFiles => "Read/write error with OOC files."@,
            MKLPardisoError::Pardiso64CalledFrom32BitLibrary =>
                "pardiso_64 called from 32-bit library."@,
            MKLPardisoError::LibraryLoadFailure => "Library load failure."@,
            MKLPardisoError::UnrecognizedError => "Unrecognized error code."@,
        }
    }

    /// The status code of this condition.
    pub fn code(&self) -> (r: i32)
        ensures
            r == self.spec_code(),
    {
        match self {
            MKLPardisoError::InputInconsistent => -1,
            MKLPardisoError::NotEnoughMemory => -2,
            MKLPardisoError::ReorderingProblem => -3,
            MKLPardisoError::ZeroPivot => -4,
            MKLPardisoError::UnclassifiedError => -5,
            MKLPardisoError::PreorderingFailed => -6,
            MKLPardisoError::DiagonalMatrixSingular => -7,
            MKLPardisoError::IntegerOverflow => -8,
            MKLPardisoError::NotEnoughMemoryOOC => -9,
            MKLPardisoError::ErrorOpeningOOCFiles => -10,
            MKLPardisoError::ReadWriteErrorOOCFiles => -11,
            MKLPardisoError::Pardiso64CalledFrom32BitLibrary => -12,
            MKLPardisoError::LibraryLoadFailure => -900,
            MKLPardisoError::UnrecognizedError => -999,
        }
    }

    /// The condition that status code `c` stands for. Never fails: a code outside the
    /// table gives `UnrecognizedError`.
    pub fn from_code(c: i32) -> (r: Self)
        ensures
            r == Self::spec_from_code(c),
    {
        match c {
            -1 => MKLPardisoError::InputInconsistent,
            -2 => MKLPardisoError::NotEnoughMemory,
            -3 => MKLPardisoError::ReorderingProblem,
            -4 => MKLPardisoError::ZeroPivot,
            -5 => MKLPardisoError::UnclassifiedError,
            -6 => MKLPardisoError::PreorderingFailed,
            -7 => MKLPardisoError::DiagonalMatrixSingular,
            -8 => MKLPardisoError::IntegerOverflow,
            -9 => MKLPardisoError::NotEnoughMemoryOOC,
            -10 => MKLPardisoError::ErrorOpeningOOCFiles,
            -11 => MKLPardisoError::ReadWriteErrorOOCFiles,
            -12 => MKLPardisoError::Pardiso64CalledFrom32BitLibrary,
            -900 => MKLPardisoError::LibraryLoadFailure,
            _ => MKLPardisoError::UnrecognizedError,
        }
    }

    /// A readable description of the condition.
    pub fn message(&self) -> (r: &'static str)
        ensures
            r@ == self.spec_message(),
    {
        match self {
            MKLPardisoError::InputInconsistent => "Input inconsistent.",
            MKLPardisoError::NotEnoughMemory => "Not enough memory.",
            MKLPardisoError::ReorderingProblem => "Reordering problem.",
            MKLPardisoError::ZeroPivot =>
                "Zero pivot, numerical factorization, or iterative refinement problem.",
            MKLPardisoError::UnclassifiedError => "Unclassified (internal) error.",
            MKLPardisoError::PreorderingFailed => "Preordering failed (matrix types 11, 13 only).",
            MKLPardisoError::DiagonalMatrixSingular => "Diagonal matrix is singular.",
            MKLPardisoError::IntegerOverflow => "32-bit integer overflow problem.",
            MKLPardisoError::NotEnoughMemoryOOC => "Not enough memory for OOC.",
            MKLPardisoError::ErrorOpeningOOCFiles => "Error opening OOC files.",
            MKLPardisoError::ReadWriteErrorOOCFiles => "Read/write error with OOC files.",
            MKLPardisoError::Pardiso64CalledFrom32BitLibrary =>
                "pardiso_64 called from 32-bit library.",
            MKLPardisoError::LibraryLoadFailure => "Library load failure.",
            MKLPardisoError::UnrecognizedError => "Unrecognized error code.",
        }
    }
}

impl From<i32> for PanuaPardisoError {
    fn from(c: i32) -> Self {
        PanuaPardisoError::from_code(c)
    }
}

impl vstd::std_specs::convert::FromSpecImpl<i32> for PanuaPardisoError {
    open spec fn obeys_from_spec() -> bool {
        true
    }

    open spec fn from_spec(c: i32) -> Self {
        PanuaPardisoError::spec_from_code(c)
    }
}

impl From<PanuaPardisoError> for i32 {
    fn from(e: PanuaPardisoError) -> Self {
        e.code()
    }
}

impl vstd::std_specs::convert::FromSpecImpl<PanuaPardisoError> for i32 {
    open spec fn obeys_from_spec() -> bool {
        true
    }

    open spec fn from_spec(e: PanuaPardisoError) -> Self {
        e.spec_code()
    }
}

impl From<i32> for MKLPardisoError {
    fn from(c: i32) -> Self {
        MKLPardisoError::from_code(c)
    }
}

impl vstd::std_specs::convert::FromSpecImpl<i32> for MKLPardisoError {
    open spec fn obeys_from_spec() -> bool {
        true
    }

    open spec fn from_spec(c: i32) -> Self {
        MKLPardisoError::spec_from_code(c)
    }
}

impl From<MKLPardisoError> for i32 {
    fn from(e: MKLPardisoError) -> Self {
        e.code()
    }
}

impl vstd::std_specs::convert::FromSpecImpl<MKLPardisoError> for i32 {
    open spec fn obeys_from_spec() -> bool {
        true
    }

    open spec fn from_spec(e: MKLPardisoError) -> Self {
        e.spec_code()
    }
}

/// Each condition is recovered from its own status code.
pub proof fn lemma_status_code_round_trip(p: PanuaPardisoError, m: MKLPardisoError)
    ensures
        PanuaPardisoError::spec_from_code(p.spec_code()) == p,
        MKLPardisoError::spec_from_code(m.spec_code()) == m,
{
}

/// A status code that stands for no condition of a backend maps to that backend's
/// `UnrecognizedError`, and is not handed on.
pub proof fn lemma_unknown_code_unrecognized(c: i32)
    ensures
        (forall|e: PanuaPardisoError| e.spec_code() != c) ==> PanuaPardisoError::spec_from_code(c)
            == PanuaPardisoError::UnrecognizedError,
        (forall|e: MKLPardisoError| e.spec_code() != c) ==> MKLPardisoError::spec_from_code(c)
            == MKLPardisoError::UnrecognizedError,
{
    let p = PanuaPardisoError::spec_from_code(c);
    assert(p != PanuaPardisoError::UnrecognizedError ==> p.spec_code() == c);
    let m = MKLPardisoError::spec_from_code(c);
    assert(m != MKLPardisoError::UnrecognizedError ==> m.spec_code() == c);
}

/// An error of either backend, as the solver interface reports it.
#[derive(Debug, Clone, Copy, PartialEq, Eq, Structural)]
pub enum PardisoError {
    MKL(MKLPardisoError),
    Panua(PanuaPardisoError),
    Unknown,
}

impl PardisoError {
    pub open spec fn spec_message(self) -> Seq<char> {
        match self {
            PardisoError::MKL(e) => "MKL ERROR: "@ + e.spec_message(),
            PardisoError::Panua(e) => "PANUA ERROR: "@ + e.spec_message(),
            PardisoError::Unknown => "Unknown error."@,
        }
    }

    /// A readable description that names the backend.
    pub fn message(&self) -> (r: String)
        ensures
            r@ == self.spec_message(),
    {
        match self {
            PardisoError::MKL(e) => String::from_str("MKL ERROR: ").concat(e.message()),
            PardisoError::Panua(e) => String::from_str("PANUA ERROR: ").concat(e.message()),
            PardisoError::Unknown => String::from_str("Unknown error."),
        }
    }
}

impl From<MKLPardisoError> for PardisoError {
    fn from(e: MKLPardisoError) -> Self {
        PardisoError::MKL(e)
    }
}

impl vstd::std_specs::convert::FromSpecImpl<MKLPardisoError> for PardisoError {
    open spec fn obeys_from_spec() -> bool {
        true
    }

    open spec fn from_spec(e: MKLPardisoError) -> Self {
        PardisoError::MKL(e)
    }
}

impl From<PanuaPardisoError> for PardisoError {
    fn from(e: PanuaPardisoError) -> Self {
        PardisoError::Panua(e)
    }
}

impl vstd::std_specs::convert::FromSpecImpl<PanuaPardisoError> for PardisoError {
    open spec fn obeys_from_spec() -> bool {
        true
    }

    open spec fn from_spec(e: PanuaPardisoError) -> Self {
        PardisoError::Panua(e)
    }
}

} // verus!
