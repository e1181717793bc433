use vstd::prelude::*;

use crate::backend::{Backend, EntryPoint};

verus! {

/// The resolved entry points of one backend's shared library: one handle for each
/// entry point of `backend.entry_points()`, in that order. A table exists only when every
/// entry point resolved.
pub struct SymbolTable<H> {
    backend: Backend,
    handles: Vec<H>,
}

impl<H> SymbolTable<H> {
    #[verifier::type_invariant]
    spec fn complete(self) -> bool {
        self.handles@.len() == self.backend.spec_entry_points().len()
    }

    pub closed spec fn spec_backend(self) -> Backend {
        self.backend
    }

    /// The handles, in the order of the backend's entry points.
    pub closed spec fn spec_handles(self) -> Seq<H> {
        self.handles@
    }

    /// Builds the table from one lookup per entry point of `backend`, in the order of
    /// `backend.entry_points()`. If any lookup failed there is no table at all.
    pub fn assemble(backend: Backend, lookups: Vec<Option<H>>) -> (r: Option<Self>)
        requires
            lookups@.len() == backend.spec_entry_points().len(),
        ensures
            r is Some <==> forall|i: int| 0 <= i < lookups@.len() ==> #[trigger] lookups@[i] is Some,
            r matches Some(t) ==> t.spec_backend() == backend && t.spec_handles().len()
                == lookups@.len() && forall|i: int|
                0 <= i < lookups@.len() ==> lookups@[i] == Some(#[trigger] t.spec_handles()[i]),
    {
        let ghost all = lookups@;
        let mut rest = lookups;
        let mut handles: Vec<H> = Vec::new();
        let mut i: usize = 0;
        let n = rest.len();
        while i < n
            invariant
                all == lookups@,
                n == all.len(),
                i <= n,
                rest@ == all.subrange(i as int, n as int),
                handles@.len() == i,
                forall|k: int| 0 <= k < i ==> all[k] == Some(#[trigger] handles@[k]),
            decreases n - i,
        {
            let item = rest.remove(0);
            match item {
                Some(h) => {
                    handles.push(h);
                },
                None => {
                    assert(!(all[i as int] is Some));
                    return None;
                },
            }
            i = i + 1;
        }
        assert forall|k: int| 0 <= k < n implies #[trigger] all[k] is Some by {
            assert(all[k] == Some(handles@[k]));
        }
        Some(SymbolTable { backend, handles })
    }

    pub fn backend(&self) -> (r: Backend)
        ensures
            r == self.spec_backend(),
    {
        self.backend
    }

    /// The handle of entry point `e`, or `None` where the backend does not export `e`.
    pub fn handle(&self, e: EntryPoint) -> (r: Option<&H>)
        ensures
            r is None <==> !self.spec_backend().spec_entry_points().contains(e),
            r matches Some(h) ==> exists|i: int|
                0 <= i < self.spec_handles().len() && self.spec_backend().spec_entry_points()[i]
                    == e && *h == #[trigger] self.spec_handles()[i],
    {
        proof {
            use_type_invariant(self);
        }
        let points = self.backend.entry_points();
        let mut i: usize = 0;
        while i < points.len()
            invariant
                points@ == self.backend.spec_entry_points(),
                self.handles@.len() == points@.len(),
                i <= points@.len(),
                forall|k: int| 0 <= k < i ==> points@[k] != e,
            decreases points@.len() - i,
        {
            if points[i] == e {
                assert(self.spec_handles()[i as int] == self.handles@[i as int]);
                return Some(&self.handles[i]);
            }
            i = i + 1;
        }
        None
    }
}

} // verus!
