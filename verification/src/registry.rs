//! The shared registry: the ordered collection of all monitored targets.
//!
//! The registry is the single source of truth read by both the checker
//! loops and the session.  Its invariant: ids are unique, and every entry
//! is well formed.  Callers that share it across tasks wrap it in a lock
//! and keep every mutation inside a short critical section.

use vstd::prelude::*;

use crate::domain::{domain_eq, history_after_append, take_last, MonitoredDomain, CheckStatus, HISTORY_CAP};

verus! {

/// An internal registry fault: these indicate a bug or corrupted input,
/// not a runtime condition of monitoring.
#[derive(Debug, Clone, Copy, PartialEq, Eq, Structural)]
pub enum RegistryError {
    /// An id that is already present was inserted, or arrived twice.
    DuplicateId,
    /// A target carried a polling interval of zero.
    InvalidInterval,
    /// The id named by the operation is not in the registry.
    MissingId,
}

/// Whether all ids in a sequence of targets are pairwise distinct.
pub open spec fn unique_ids(s: Seq<MonitoredDomain>) -> bool {
    forall|i: int, j: int| 0 <= i < j < s.len() ==> s[i].id != s[j].id
}

/// The relation between a registry before and after appending `r` to the
/// target at position `i`: that entry's history grows under the eviction
/// policy and everything else is untouched.
pub open spec fn appended_at(
    pre: Seq<MonitoredDomain>,
    post: Seq<MonitoredDomain>,
    i: int,
    r: CheckStatus,
) -> bool {
    &&& post.len() == pre.len()
    &&& forall|j: int| 0 <= j < pre.len() && j != i ==> post[j] == pre[j]
    &&& post[i].id == pre[i].id
    &&& post[i].url == pre[i].url
    &&& post[i].interval_seconds == pre[i].interval_seconds
    &&& post[i].check_history@ == history_after_append(pre[i].check_history@, r)
}

/// The shared collection of all targets and their histories, in insertion
/// order.
#[derive(Debug)]
pub struct Registry {
    domains: Vec<MonitoredDomain>,
}

impl View for Registry {
    type V = Seq<MonitoredDomain>;

    closed spec fn view(&self) -> Seq<MonitoredDomain> {
        self.domains@
    }
}

impl Registry {
    /// The registry invariant: unique ids, every entry well formed.
    pub open spec fn wf(self) -> bool {
        &&& unique_ids(self@)
        &&& forall|i: int| 0 <= i < self@.len() ==> (#[trigger] self@[i]).wf()
    }

    /// An empty registry.
    pub fn new() -> (r: Registry)
        ensures
            r.wf(),
            r@ =~= Seq::<MonitoredDomain>::empty(),
    {
        Registry { domains: Vec::new() }
    }

    /// The number of targets.
    pub fn len(&self) -> (n: usize)
        ensures
            n == self@.len(),
    {
        self.domains.len()
    }

    /// Read access to the target at position `i`.
    pub fn get(&self, i: usize) -> (d: &MonitoredDomain)
        requires
            i < self@.len(),
        ensures
            *d == self@[i as int],
    {
        &self.domains[i]
    }

    /// Read access to the whole collection, for rendering or persistence.
    pub fn domains_ref(&self) -> (v: &Vec<MonitoredDomain>)
        ensures
            v@ == self@,
    {
        &self.domains
    }

    /// The position of the target with the given id, if present.
    pub fn find_index(&self, id: u128) -> (r: Option<usize>)
        ensures
            match r {
                Some(i) => i < self@.len() && self@[i as int].id == id,
                None => forall|i: int| 0 <= i < self@.len() ==> self@[i].id != id,
            },
    {
        let mut i: usize = 0;
        while i < self.domains.len()
            invariant
                i <= self.domains@.len(),
                forall|j: int| 0 <= j < i ==> self.domains@[j].id != id,
            decreases self.domains@.len() - i,
        {
            if self.domains[i].id == id {
                return Some(i);
            }
            i = i + 1;
        }
        None
    }

    /// Whether a target with the given id is present.
    pub fn contains_id(&self, id: u128) -> (r: bool)
        ensures
            r == exists|i: int| 0 <= i < self@.len() && self@[i].id == id,
    {
        let r = self.find_index(id);
        match r {
            Some(i) => {
                proof {
                    assert(0 <= i < self@.len() && self@[i as int].id == id);
                }
                true
            },
            None => false,
        }
    }

    /// Add a new target at the end.  Fails, and changes nothing, exactly
    /// when the id is already present; ids are generated fresh, so a
    /// failure indicates a bug rather than a runtime condition.
    pub fn insert(&mut self, d: MonitoredDomain) -> (r: Result<(), RegistryError>)
        requires
            old(self).wf(),
            d.wf(),
        ensures
            final(self).wf(),
            match r {
                Ok(()) => {
                    &&& forall|i: int| 0 <= i < old(self)@.len() ==> old(self)@[i].id != d.id
                    &&& final(self)@ == old(self)@.push(d)
                },
                Err(e) => {
                    &&& e == RegistryError::DuplicateId
                    &&& exists|i: int| 0 <= i < old(self)@.len() && old(self)@[i].id == d.id
                    &&& final(self)@ == old(self)@
                },
            },
    {
        if self.contains_id(d.id) {
            return Err(RegistryError::DuplicateId);
        }
        self.domains.push(d);
        Ok(())
    }

    /// Remove the target with the given id.  Fails, and changes nothing,
    /// exactly when no target has that id.
    pub fn remove(&mut self, id: u128) -> (r: Result<MonitoredDomain, RegistryError>)
        requires
            old(self).wf(),
        ensures
            final(self).wf(),
            match r {
                Ok(d) => {
                    &&& exists|i: int|
                        {
                            &&& 0 <= i < old(self)@.len()
                            &&& old(self)@[i].id == id
                            &&& d == old(self)@[i]
                            &&& final(self)@ == old(self)@.remove(i)
                        }
                    &&& d.id == id
                    &&& final(self)@.len() == old(self)@.len() - 1
                },
                Err(e) => {
                    &&& e == RegistryError::MissingId
                    &&& forall|i: int| 0 <= i < old(self)@.len() ==> old(self)@[i].id != id
                    &&& final(self)@ == old(self)@
                },
            },
    {
        let found = self.find_index(id);
        match found {
            Some(i) => {
                let d = self.domains.remove(i);
                proof {
                    assert(self@ == old(self)@.remove(i as int));
                    assert forall|a: int, b: int| 0 <= a < b < self@.len() implies
                        self@[a].id != self@[b].id
                    by {
                        if b < i as int {
                            assert(self@[a] == old(self)@[a]);
                            assert(self@[b] == old(self)@[b]);
                        } else if a < i as int {
                            assert(self@[a] == old(self)@[a]);
                            assert(self@[b] == old(self)@[b + 1]);
                        } else {
                            assert(self@[a] == old(self)@[a + 1]);
                            assert(self@[b] == old(self)@[b + 1]);
                        }
                    }
                    assert forall|k: int| 0 <= k < self@.len() implies (#[trigger] self@[k]).wf()
                    by {
                        if k < i as int {
                            assert(self@[k] == old(self)@[k]);
                        } else {
                            assert(self@[k] == old(self)@[k + 1]);
                        }
                    }
                }
                Ok(d)
            },
            None => Err(RegistryError::MissingId),
        }
    }

    /// Append one check result to the target with the given id, evicting
    /// the oldest history entries beyond the cap.  Fails, and changes
    /// nothing, exactly when the id is gone: a checker loop treats that as
    /// its cancellation signal, since deletion removes the id.
    pub fn append_result(&mut self, id: u128, r: CheckStatus) -> (res: Result<(), RegistryError>)
        requires
            old(self).wf(),
        ensures
            final(self).wf(),
            res is Ok <==> exists|i: int| 0 <= i < old(self)@.len() && old(self)@[i].id == id,
            match res {
                Ok(()) => exists|i: int|
                    {
                        &&& 0 <= i < old(self)@.len()
                        &&& old(self)@[i].id == id
                        &&& appended_at(old(self)@, final(self)@, i, r)
                    },
                Err(e) => {
                    &&& e == RegistryError::MissingId
                    &&& final(self)@ == old(self)@
                },
            },
    {
        let found = self.find_index(id);
        match found {
            Some(i) => {
                let d = vstd::std_specs::vec::vec_index_mut(&mut self.domains, i);
                d.record(r);
                proof {
                    assert(appended_at(old(self)@, self@, i as int, r));
                    assert forall|a: int, b: int| 0 <= a < b < self@.len() implies
                        self@[a].id != self@[b].id
                    by {
                        assert(self@[a].id == old(self)@[a].id);
                        assert(self@[b].id == old(self)@[b].id);
                    }
                    assert forall|k: int| 0 <= k < self@.len() implies (#[trigger] self@[k]).wf()
                    by {
                        if k != i as int {
                            assert(self@[k] == old(self)@[k]);
                        }
                    }
                }
                Ok(())
            },
            None => Err(RegistryError::MissingId),
        }
    }

    /// An element-wise copy of the whole collection, so that rendering and
    /// bulk persistence need not hold a lock on the registry itself.
    pub fn snapshot(&self) -> (v: Vec<MonitoredDomain>)
        ensures
            v@.len() == self@.len(),
            forall|i: int| 0 <= i < self@.len() ==> domain_eq(#[trigger] v@[i], self@[i]),
    {
        let mut v: Vec<MonitoredDomain> = Vec::new();
        let mut i: usize = 0;
        while i < self.domains.len()
            invariant
                i <= self.domains@.len(),
                v@.len() == i,
                forall|j: int| 0 <= j < i ==> domain_eq(#[trigger] v@[j], self.domains@[j]),
            decreases self.domains@.len() - i,
        {
            v.push(self.domains[i].clone());
            i = i + 1;
        }
        v
    }

    /// Build a registry from records that arrived from outside (a persisted
    /// file).  Histories beyond the cap are trimmed; a duplicate id or a
    /// zero interval is rejected as corrupted input.
    pub fn from_domains(domains: Vec<MonitoredDomain>) -> (r: Result<Registry, RegistryError>)
        ensures
            match r {
                Ok(reg) => {
                    &&& reg.wf()
                    &&& reg@.len() == domains@.len()
                    &&& forall|i: int| 0 <= i < domains@.len() ==> {
                        &&& (#[trigger] reg@[i]).id == domains@[i].id
                        &&& reg@[i].url == domains@[i].url
                        &&& reg@[i].interval_seconds == domains@[i].interval_seconds
                        &&& reg@[i].check_history@ == take_last(
                            domains@[i].check_history@,
                            HISTORY_CAP as int,
                        )
                    }
                },
                Err(e) => {
                    ||| (e == RegistryError::DuplicateId && !unique_ids(domains@))
                    ||| (e == RegistryError::InvalidInterval && exists|i: int|
                        0 <= i < domains@.len() && (#[trigger] domains@[i]).interval_seconds == 0)
                },
            },
            r is Err <==> (!unique_ids(domains@) || exists|i: int|
                0 <= i < domains@.len() && (#[trigger] domains@[i]).interval_seconds == 0),
    {
        let mut out: Vec<MonitoredDomain> = Vec::new();
        let mut i: usize = 0;
        while i < domains.len()
            invariant
                i <= domains@.len(),
                out@.len() == i,
                forall|j: int| 0 <= j < i ==> {
                    &&& (#[trigger] out@[j]).id == domains@[j].id
                    &&& out@[j].url == domains@[j].url
                    &&& out@[j].interval_seconds == domains@[j].interval_seconds
                    &&& out@[j].check_history@ == take_last(
                        domains@[j].check_history@,
                        HISTORY_CAP as int,
                    )
                    &&& out@[j].check_history@.len() <= HISTORY_CAP
                    &&& out@[j].interval_seconds >= 1
                },
                forall|a: int, b: int| 0 <= a < b < i ==> domains@[a].id != domains@[b].id,
            decreases domains@.len() - i,
        {
            if domains[i].interval_seconds == 0 {
                return Err(RegistryError::InvalidInterval);
            }
            let id = domains[i].id;
            let mut j: usize = 0;
            while j < i
                invariant
                    j <= i,
                    i < domains@.len(),
                    id == domains@[i as int].id,
                    forall|a: int| 0 <= a < j ==> (#[trigger] domains@[a]).id != id,
                decreases i - j,
            {
                if domains[j].id == id {
                    return Err(RegistryError::DuplicateId);
                }
                j = j + 1;
            }
            let mut c = domains[i].clone();
            c.trim_history();
            out.push(c);
            i = i + 1;
        }
        proof {
            assert(unique_ids(domains@));
            assert forall|k: int| 0 <= k < domains@.len() implies
                (#[trigger] domains@[k]).interval_seconds != 0
            by {
                assert(out@[k].interval_seconds == domains@[k].interval_seconds);
                assert(out@[k].interval_seconds >= 1);
            }
        }
        Ok(Registry { domains: out })
    }
}

} // verus!
