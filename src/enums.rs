use vstd::prelude::*;

verus! {

/// Symmetry and structure class of the system matrix. It selects the native code path
/// and which triangle of the matrix has to be supplied.
#[derive(Debug, Clone, Copy, PartialEq, Eq, Structural)]
pub enum MatrixType {
    RealStructurallySymmetric,
    RealSymmetricPositiveDefinite,
    RealSymmetricIndefinite,
    ComplexStructurallySymmetric,
    ComplexHermitianPositiveDefinite,
    ComplexHermitianIndefinite,
    ComplexSymmetric,
    RealNonsymmetric,
    ComplexNonsymmetric,
}

impl MatrixType {
    /// The matrix entries are real numbers.
    pub open spec fn spec_is_real(self) -> bool {
        self is RealStructurallySymmetric || self is RealSymmetricPositiveDefinite
            || self is RealSymmetricIndefinite || self is RealNonsymmetric
    }

    /// The matrix entries are complex numbers.
    pub open spec fn spec_is_complex(self) -> bool {
        self is ComplexStructurallySymmetric || self is ComplexHermitianPositiveDefinite
            || self is ComplexHermitianIndefinite || self is ComplexSymmetric
            || self is ComplexNonsymmetric
    }

    /// The matrix is symmetric (for a complex matrix: equal to its transpose).
    pub open spec fn spec_is_symmetric(self) -> bool {
        self is RealSymmetricPositiveDefinite || self is RealSymmetricIndefinite
            || self is ComplexSymmetric
    }

    /// The matrix equals its conjugate transpose: the two Hermitian classes, and the real
    /// symmetric ones.
    pub open spec fn spec_is_hermitian(self) -> bool {
        self is ComplexHermitianPositiveDefinite || self is ComplexHermitianIndefinite
            || self is RealSymmetricPositiveDefinite || self is RealSymmetricIndefinite
    }

    /// The integer by which the native solver knows this class.
    pub open spec fn spec_code(self) -> i32 {
        match self {
            MatrixType::RealStructurallySymmetric => 1,
            MatrixType::RealSymmetricPositiveDefinite => 2,
            MatrixType::RealSymmetricIndefinite => -2i32,
            MatrixType::ComplexStructurallySymmetric => 3,
            MatrixType::ComplexHermitianPositiveDefinite => 4,
            MatrixType::ComplexHermitianIndefinite => -4i32,
            MatrixType::ComplexSymmetric => 6,
            MatrixType::RealNonsymmetric => 11,
            MatrixType::ComplexNonsymmetric => 13,
        }
    }

    pub open spec fn spec_name(self) -> Seq<char> {
        match self {
            MatrixType::RealStructurallySymmetric => "Real Structurally Symmetric"@,
            MatrixType::RealSymmetricPositiveDefinite => "Real Symmetric Positive Definite"@,
            MatrixType::RealSymmetricIndefinite => "Real Symmetric Indefinite"@,
            MatrixType::ComplexStructurallySymmetric => "Complex Structurally Symmetric"@,
            MatrixType::ComplexHermitianPositiveDefinite => "Complex Hermitian Positive Definite"@,
            MatrixType::ComplexHermitianIndefinite => "Complex Hermitian Indefinite"@,
            MatrixType::ComplexSymmetric => "Complex Symmetric"@,
            MatrixType::RealNonsymmetric => "Real Nonsymmetric"@,
            MatrixType::ComplexNonsymmetric => "Complex Nonsymmetric"@,
        }
    }

    pub fn is_real(&self) -> (r: bool)
        ensures
            r == self.spec_is_real(),
    {
        match self {
            MatrixType::RealStructurallySymmetric
            | MatrixType::RealSymmetricPositiveDefinite
            | MatrixType::RealSymmetricIndefinite
            | MatrixType::RealNonsymmetric => true,
            _ => false,
        }
    }

    pub fn is_complex(&self) -> (r: bool)
        ensures
            r == self.spec_is_complex(),
    {
        !self.is_real()
    }

    pub fn is_symmetric(&self) -> (r: bool)
        ensures
            r == self.spec_is_symmetric(),
    {
        match self {
            MatrixType::RealSymmetricPositiveDefinite
            | MatrixType::RealSymmetricIndefinite
            | MatrixType::ComplexSymmetric => true,
            _ => false,
        }
    }

    pub fn is_hermitian(&self) -> (r: bool)
        ensures
            r == self.spec_is_hermitian(),
    {
        (self.is_symmetric() && self.is_real()) || match self {
            MatrixType::ComplexHermitianPositiveDefinite
            | MatrixType::ComplexHermitianIndefinite => true,
            _ => false,
        }
    }

    pub fn code(&self) -> (r: i32)
        ensures
            r == self.spec_code(),
    {
        match self {
            MatrixType::RealStructurallySymmetric => 1,
            MatrixType::RealSymmetricPositiveDefinite => 2,
            MatrixType::RealSymmetricIndefinite => -2i32,
            MatrixType::ComplexStructurallySymmetric => 3,
            MatrixType::ComplexHermitianPositiveDefinite => 4,
            MatrixType::ComplexHermitianIndefinite => -4i32,
            MatrixType::ComplexSymmetric => 6,
            MatrixType::RealNonsymmetric => 11,
            MatrixType::ComplexNonsymmetric => 13,
        }
    }

    /// A readable name of the class.
    pub fn name(&self) -> (r: &'static str)
        ensures
            r@ == self.spec_name(),
    {
        match self {
            MatrixType::RealStructurallySymmetric => "Real Structurally Symmetric",
            MatrixType::RealSymmetricPositiveDefinite => "Real Symmetric Positive Definite",
            MatrixType::RealSymmetricIndefinite => "Real Symmetric Indefinite",
            MatrixType::ComplexStructurallySymmetric => "Complex Structurally Symmetric",
            MatrixType::ComplexHermitianPositiveDefinite => "Complex Hermitian Positive Definite",
            MatrixType::ComplexHermitianIndefinite => "Complex Hermitian Indefinite",
            MatrixType::ComplexSymmetric => "Complex Symmetric",
            MatrixType::RealNonsymmetric => "Real Nonsymmetric",
            MatrixType::ComplexNonsymmetric => "Complex Nonsymmetric",
        }
    }
}

impl Default for MatrixType {
    fn default() -> (r: Self)
        ensures
            r == MatrixType::RealSymmetricIndefinite,
    {
        MatrixType::RealSymmetricIndefinite
    }
}

/// For every matrix class, being real and being complex exclude each other, and the
/// Hermitian classes are exactly the two complex Hermitian ones and the real symmetric
/// ones.
pub proof fn lemma_matrix_type_classes(t: MatrixType)
    ensures
        t.spec_is_real() != t.spec_is_complex(),
        t.spec_is_hermitian() <==> (t is ComplexHermitianPositiveDefinite
            || t is ComplexHermitianIndefinite || (t.spec_is_real() && t.spec_is_symmetric())),
        t.spec_is_real() && t.spec_is_symmetric() <==> (t is RealSymmetricPositiveDefinite
            || t is RealSymmetricIndefinite),
{
}

/// Distinct matrix classes have distinct native codes.
pub proof fn lemma_matrix_type_codes_distinct(s: MatrixType, t: MatrixType)
    ensures
        s.spec_code() == t.spec_code() <==> s == t,
{
}

/// The operation that one call of the native solver performs.
#[derive(Debug, Clone, Copy, PartialEq, Eq, Structural)]
pub enum Phase {
    Analysis,
    AnalysisNumFact,
    AnalysisNumFactSolveRefine,
    NumFact,
    SelectedInversion,
    NumFactSolveRefine,
    SolveIterativeRefine,
    SolveIterativeRefineOnlyForward,
    SolveIterativeRefineOnlyDiag,
    SolveIterativeRefineOnlyBackward,
    ReleaseLUandMNUM,
    ReleaseAll,
}

impl Phase {
    /// The integer by which the native solver knows this phase.
    pub open spec fn spec_code(self) -> i32 {
        match self {
            Phase::Analysis => 11,
            Phase::AnalysisNumFact => 12,
            Phase::AnalysisNumFactSolveRefine => 13,
            Phase::NumFact => 22,
            Phase::SelectedInversion => -22i32,
            Phase::NumFactSolveRefine => 23,
            Phase::SolveIterativeRefine => 33,
            Phase::SolveIterativeRefineOnlyForward => 331,
            Phase::SolveIterativeRefineOnlyDiag => 332,
            Phase::SolveIterativeRefineOnlyBackward => 333,
            Phase::ReleaseLUandMNUM => 0,
            Phase::ReleaseAll => -1i32,
        }
    }

    pub open spec fn spec_name(self) -> Seq<char> {
        match self {
            Phase::Analysis => "Analysis"@,
            Phase::AnalysisNumFact => "Analysis, Numerical Factorization"@,
            Phase::AnalysisNumFactSolveRefine =>
                "Analysis, Numerical Factorization, and Solve with Refine"@,
            Phase::NumFact => "Numerical Factorization"@,
            Phase::SelectedInversion => "Selected Inversion"@,
            Phase::NumFactSolveRefine => "Numerical Factorization and Solve with Refine"@,
            Phase::SolveIterativeRefine => "Solve with Iterative Refinement"@,
            Phase::SolveIterativeRefineOnlyForward => "Solve with Iterative Refinement (Forward)"@,
            Phase::SolveIterativeRefineOnlyDiag => "Solve with Iterative Refinement (Diagonal)"@,
            Phase::SolveIterativeRefineOnlyBackward =>
                "Solve with Iterative Refinement (Backward)"@,
            Phase::ReleaseLUandMNUM => "Release LU and MNUM"@,
            Phase::ReleaseAll => "Release All"@,
        }
    }

    pub fn code(&self) -> (r: i32)
        ensures
            r == self.spec_code(),
    {
        match self {
            Phase::Analysis => 11,
            Phase::AnalysisNumFact => 12,
            Phase::AnalysisNumFactSolveRefine => 13,
            Phase::NumFact => 22,
            Phase::SelectedInversion => -22i32,
            Phase::NumFactSolveRefine => 23,
            Phase::SolveIterativeRefine => 33,
            Phase::SolveIterativeRefineOnlyForward => 331,
            Phase::SolveIterativeRefineOnlyDiag => 332,
            Phase::SolveIterativeRefineOnlyBackward => 333,
            Phase::ReleaseLUandMNUM => 0,
            Phase::ReleaseAll => -1i32,
        }
    }

    /// A readable name of the phase.
    pub fn name(&self) -> (r: &'static str)
        ensures
            r@ == self.spec_name(),
    {
        match self {
            Phase::Analysis => "Analysis",
            Phase::AnalysisNumFact => "Analysis, Numerical Factorization",
            Phase::AnalysisNumFactSolveRefine =>
                "Analysis, Numerical Factorization, and Solve with Refine",
            Phase::NumFact => "Numerical Factorization",
            Phase::SelectedInversion => "Selected Inversion",
            Phase::NumFactSolveRefine => "Numerical Factorization and Solve with Refine",
            Phase::SolveIterativeRefine => "Solve with Iterative Refinement",
            Phase::SolveIterativeRefineOnlyForward => "Solve with Iterative Refinement (Forward)",
            Phase::SolveIterativeRefineOnlyDiag => "Solve with Iterative Refinement (Diagonal)",
            Phase::SolveIterativeRefineOnlyBackward => "Solve with Iterative Refinement (Backward)",
            Phase::ReleaseLUandMNUM => "Release LU and MNUM",
            Phase::ReleaseAll => "Release All",
        }
    }
}

impl Default for Phase {
    fn default() -> (r: Self)
        ensures
            r == Phase::Analysis,
    {
        Phase::Analysis
    }
}

/// Distinct phases have distinct native codes.
pub proof fn lemma_phase_codes_distinct(p: Phase, q: Phase)
    ensures
        p.spec_code() == q.spec_code() <==> p == q,
{
}

/// Whether the native solver prints statistics.
#[derive(Debug, Clone, Copy, PartialEq, Eq, Structural)]
pub enum MessageLevel {
    Off,
    On,
}

impl MessageLevel {
    pub open spec fn spec_code(self) -> i32 {
        match self {
            MessageLevel::Off => 0,
            MessageLevel::On => 1,
        }
    }

    pub fn code(&self) -> (r: i32)
        ensures
            r == self.spec_code(),
    {
        match self {
            MessageLevel::Off => 0,
            MessageLevel::On => 1,
        }
    }
}

impl Default for MessageLevel {
    fn default() -> (r: Self)
        ensures
            r == MessageLevel::Off,
    {
        MessageLevel::Off
    }
}

/// Direct factorization or the iterative (Krylov-subspace) solver; only Panua reads it.
#[derive(Debug, Clone, Copy, PartialEq, Eq, Structural)]
pub enum SolverType {
    Direct,
    Iterative,
}

impl SolverType {
    pub open spec fn spec_code(self) -> i32 {
        match self {
            SolverType::Direct => 0,
            SolverType::Iterative => 1,
        }
    }

    pub fn code(&self) -> (r: i32)
        ensures
            r == self.spec_code(),
    {
        match self {
            SolverType::Direct => 0,
            SolverType::Iterative => 1,
        }
    }
}

impl Default for SolverType {
    fn default() -> (r: Self)
        ensures
            r == SolverType::Direct,
    {
        SolverType::Direct
    }
}

} // verus!
