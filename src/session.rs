use vstd::prelude::*;

use crate::enums::{MatrixType, MessageLevel, Phase, SolverType};

verus! {

/// Number of slots in the opaque handle array and in the integer parameter bank.
pub const PARAM_SLOTS: usize = 64;

/// Slot of the integer parameter bank where the native solver reports the threads it used.
pub const IPARM_THREADS_USED: usize = 2;

/// Slot where a factorization reports the number of positive eigenvalues.
pub const IPARM_POSITIVE_EIGENVALUES: usize = 21;

/// Slot where a factorization reports the number of negative eigenvalues.
pub const IPARM_NEGATIVE_EIGENVALUES: usize = 22;

/// The mathematical content of a session's state.
pub struct SessionModel {
    pub pt: Seq<isize>,
    pub iparm: Seq<i32>,
    pub mtype: MatrixType,
    pub solver: SolverType,
    pub phase: Phase,
    pub msglvl: MessageLevel,
    pub maxfct: i32,
    pub mnum: i32,
    pub perm: Seq<i32>,
}

/// Scalar arguments of one call of the native initialization entry point. The handle
/// array and the parameter banks are passed by address beside them.
#[derive(Debug, Clone, Copy, PartialEq, Eq, Structural)]
pub struct InitRequest {
    pub mtype: i32,
    pub solver: i32,
}

/// Scalar arguments of one call of the native solve entry point. The handle array,
/// the matrix, the permutation, the parameter banks and the dense vectors are passed by
/// address beside them.
#[derive(Debug, Clone, Copy, PartialEq, Eq, Structural)]
pub struct SolveRequest {
    pub maxfct: i32,
    pub mnum: i32,
    pub mtype: i32,
    pub phase: i32,
    pub n: i32,
    pub nrhs: i32,
    pub msglvl: i32,
}

impl SessionModel {
    /// The state of a new session: everything zeroed, default selectors, and the first
    /// factorization of the first matrix addressed.
    pub open spec fn initial() -> SessionModel {
        SessionModel {
            pt: Seq::new(PARAM_SLOTS as nat, |i: int| 0isize),
            iparm: Seq::new(PARAM_SLOTS as nat, |i: int| 0i32),
            mtype: MatrixType::RealSymmetricIndefinite,
            solver: SolverType::Direct,
            phase: Phase::Analysis,
            msglvl: MessageLevel::Off,
            maxfct: 1,
            mnum: 1,
            perm: Seq::empty(),
        }
    }

    pub open spec fn with_mtype(self, mtype: MatrixType) -> SessionModel {
        SessionModel { mtype, ..self }
    }

    pub open spec fn with_solver(self, solver: SolverType) -> SessionModel {
        SessionModel { solver, ..self }
    }

    pub open spec fn with_phase(self, phase: Phase) -> SessionModel {
        SessionModel { phase, ..self }
    }

    pub open spec fn with_msglvl(self, msglvl: MessageLevel) -> SessionModel {
        SessionModel { msglvl, ..self }
    }

    pub open spec fn with_maxfct(self, maxfct: i32) -> SessionModel {
        SessionModel { maxfct, ..self }
    }

    pub open spec fn with_mnum(self, mnum: i32) -> SessionModel {
        SessionModel { mnum, ..self }
    }

    pub open spec fn with_perm(self, perm: Seq<i32>) -> SessionModel {
        SessionModel { perm, ..self }
    }

    pub open spec fn with_iparm(self, i: int, value: i32) -> SessionModel {
        SessionModel { iparm: self.iparm.update(i, value), ..self }
    }

    /// What the native initialization is called with in this state.
    pub open spec fn init_request(self) -> InitRequest {
        InitRequest { mtype: self.mtype.spec_code(), solver: self.solver.spec_code() }
    }

    /// What the native solver is called with in this state, for `n` equations and
    /// `nrhs` right-hand sides.
    pub open spec fn solve_request(self, n: i32, nrhs: i32) -> SolveRequest {
        SolveRequest {
            maxfct: self.maxfct,
            mnum: self.mnum,
            mtype: self.mtype.spec_code(),
            phase: self.phase.spec_code(),
            n,
            nrhs,
            msglvl: self.msglvl.spec_code(),
        }
    }

    /// The state after a release has been requested.
    pub open spec fn released(self) -> SessionModel {
        self.with_phase(Phase::ReleaseAll)
    }

    /// The call that releases every native resource of the session: phase `ReleaseAll`,
    /// with no equations and no right-hand sides.
    pub open spec fn release_request(self) -> SolveRequest {
        self.released().solve_request(0, 0)
    }
}

/// The state of one solver session. The native library keeps its own data in `pt`,
/// which this crate never reads or writes; it is only handed to the native calls by
/// address.
#[derive(Debug)]
pub struct PardisoData {
    pub pt: [isize; 64],
    pub iparm: [i32; 64],
    pub mtype: MatrixType,
    pub solver: SolverType,
    pub phase: Phase,
    pub msglvl: MessageLevel,
    pub maxfct: i32,
    pub mnum: i32,
    pub perm: Vec<i32>,
}

impl View for PardisoData {
    type V = SessionModel;

    open spec fn view(&self) -> SessionModel {
        SessionModel {
            pt: self.pt@,
            iparm: self.iparm@,
            mtype: self.mtype,
            solver: self.solver,
            phase: self.phase,
            msglvl: self.msglvl,
            maxfct: self.maxfct,
            mnum: self.mnum,
            perm: self.perm@,
        }
    }
}

impl Default for PardisoData {
    fn default() -> (r: Self)
        ensures
            r@ == SessionModel::initial(),
    {
        let r = PardisoData {
            pt: [0; 64],
            iparm: [0; 64],
            mtype: MatrixType::default(),
            solver: SolverType::default(),
            phase: Phase::default(),
            msglvl: MessageLevel::default(),
            maxfct: 1,
            mnum: 1,
            perm: Vec::new(),
        };
        assert(r.pt@ =~= SessionModel::initial().pt);
        assert(r.iparm@ =~= SessionModel::initial().iparm);
        r
    }
}

impl PardisoData {
    pub fn get_matrix_type(&self) -> (r: MatrixType)
        ensures
            r == self@.mtype,
    {
        self.mtype
    }

    pub fn set_matrix_type(&mut self, mtype: MatrixType)
        ensures
            final(self)@ == old(self)@.with_mtype(mtype),
    {
        self.mtype = mtype;
    }

    pub fn get_solver(&self) -> (r: SolverType)
        ensures
            r == self@.solver,
    {
        self.solver
    }

    pub fn set_solver(&mut self, solver: SolverType)
        ensures
            final(self)@ == old(self)@.with_solver(solver),
    {
        self.solver = solver;
    }

    pub fn get_phase(&self) -> (r: Phase)
        ensures
            r == self@.phase,
    {
        self.phase
    }

    pub fn set_phase(&mut self, phase: Phase)
        ensures
            final(self)@ == old(self)@.with_phase(phase),
    {
        self.phase = phase;
    }

    pub fn get_message_level(&self) -> (r: MessageLevel)
        ensures
            r == self@.msglvl,
    {
        self.msglvl
    }

    pub fn set_message_level(&mut self, msglvl: MessageLevel)
        ensures
            final(self)@ == old(self)@.with_msglvl(msglvl),
    {
        self.msglvl = msglvl;
    }

    pub fn get_maxfct(&self) -> (r: i32)
        ensures
            r == self@.maxfct,
    {
        self.maxfct
    }

    pub fn set_maxfct(&mut self, maxfct: i32)
        ensures
            final(self)@ == old(self)@.with_maxfct(maxfct),
    {
        self.maxfct = maxfct;
    }

    pub fn get_mnum(&self) -> (r: i32)
        ensures
            r == self@.mnum,
    {
        self.mnum
    }

    pub fn set_mnum(&mut self, mnum: i32)
        ensures
            final(self)@ == old(self)@.with_mnum(mnum),
    {
        self.mnum = mnum;
    }

    pub fn get_perm(&self) -> (r: &[i32])
        ensures
            r@ == self@.perm,
    {
        self.perm.as_slice()
    }

    /// Replaces the stored permutation by a copy of `perm`, whatever its length.
    pub fn set_perm(&mut self, perm: &[i32])
        ensures
            final(self)@ == old(self)@.with_perm(perm@),
    {
        self.perm = vstd::slice::slice_to_vec(perm);
    }

    pub fn get_iparm(&self, i: usize) -> (r: i32)
        requires
            i < PARAM_SLOTS,
        ensures
            r == self@.iparm[i as int],
    {
        self.iparm[i]
    }

    pub fn get_iparms(&self) -> (r: &[i32; 64])
        ensures
            r@ == self@.iparm,
    {
        &self.iparm
    }

    pub fn set_iparm(&mut self, i: usize, value: i32)
        requires
            i < PARAM_SLOTS,
        ensures
            final(self)@ == old(self)@.with_iparm(i as int, value),
    {
        self.iparm[i] = value;
    }

    /// Positive eigenvalues counted by the last factorization of a symmetric indefinite
    /// matrix.
    pub fn get_num_positive_eigenvalues(&self) -> (r: i32)
        ensures
            r == self@.iparm[IPARM_POSITIVE_EIGENVALUES as int],
    {
        self.iparm[IPARM_POSITIVE_EIGENVALUES]
    }

    /// Negative eigenvalues counted by the last factorization of a symmetric indefinite
    /// matrix.
    pub fn get_num_negative_eigenvalues(&self) -> (r: i32)
        ensures
            r == self@.iparm[IPARM_NEGATIVE_EIGENVALUES as int],
    {
        self.iparm[IPARM_NEGATIVE_EIGENVALUES]
    }

    /// Threads that the last native call reported using, for a backend that reports
    /// them in the parameter bank.
    pub fn get_threads_used(&self) -> (r: i32)
        ensures
            r == self@.iparm[IPARM_THREADS_USED as int],
    {
        self.iparm[IPARM_THREADS_USED]
    }

    /// The scalar arguments of the native initialization in the current state.
    pub fn init_request(&self) -> (r: InitRequest)
        ensures
            r == self@.init_request(),
    {
        InitRequest { mtype: self.mtype.code(), solver: self.solver.code() }
    }

    /// The scalar arguments of the native solve call in the current state, for `n`
    /// equations and `nrhs` right-hand sides. Nothing is checked here: the native
    /// library judges the matrix and the phase order.
    pub fn solve_request(&self, n: i32, nrhs: i32) -> (r: SolveRequest)
        ensures
            r == self@.solve_request(n, nrhs),
    {
        SolveRequest {
            maxfct: self.maxfct,
            mnum: self.mnum,
            mtype: self.mtype.code(),
            phase: self.phase.code(),
            n,
            nrhs,
            msglvl: self.msglvl.code(),
        }
    }

    /// Selects the phase that frees every native resource of the session and returns the
    /// call that does it, with empty buffers. Whatever that call reports is to be ignored.
    pub fn release_request(&mut self) -> (r: SolveRequest)
        ensures
            final(self)@ == old(self)@.released(),
            r == old(self)@.release_request(),
    {
        self.set_phase(Phase::ReleaseAll);
        self.solve_request(0, 0)
    }
}

/// A stored permutation reads back exactly as it was set, and setting another one
/// replaces it wholesale, whatever the two lengths.
pub proof fn lemma_perm_replaced(s: SessionModel, p: Seq<i32>, q: Seq<i32>)
    ensures
        s.with_perm(p).perm == p,
        s.with_perm(p).perm.len() == p.len(),
        s.with_perm(p).with_perm(q) == s.with_perm(q),
{
}

/// Releasing twice leaves the session as releasing once does, and the second release
/// issues the same native call as the first.
pub proof fn lemma_release_idempotent(s: SessionModel)
    ensures
        s.released().released() == s.released(),
        s.released().release_request() == s.release_request(),
        s.release_request().phase == Phase::ReleaseAll.spec_code(),
        s.release_request().n == 0 && s.release_request().nrhs == 0,
{
}

} // verus!
