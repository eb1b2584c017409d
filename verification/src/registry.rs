//! The process-wide repository registry: the one piece of shared state of
//! the core. A name is bound to its ledger handle exactly once; every
//! protocol request starts by looking its repository up here.

use vstd::prelude::*;
use crate::errors::Error;
use crate::ledger::LedgerHandle;
use crate::text::str_eq;

verus! {

/// One binding of a repository name to its ledger handle.
#[derive(Debug, Clone)]
pub struct RegistryEntry {
    pub name: String,
    pub handle: LedgerHandle,
}

/// The registry: entries are inserted once and never removed or mutated in
/// place. The shell guards it with a lock held only across these O(n)
/// calls, never across network or subprocess work.
#[derive(Debug)]
pub struct Registry {
    pub entries: Vec<RegistryEntry>,
}

impl Registry {
    /// No name is bound twice.
    pub open spec fn wf(self) -> bool {
        forall|i: int, j: int| 0 <= i < j < self.entries@.len()
            ==> (#[trigger] self.entries@[i]).name@ != (#[trigger] self.entries@[j]).name@
    }

    /// The registry holds a binding for this name.
    pub open spec fn spec_contains(self, name: Seq<char>) -> bool {
        exists|i: int| 0 <= i < self.entries@.len()
            && (#[trigger] self.entries@[i]).name@ == name
    }

    /// An empty registry.
    pub fn new() -> (r: Registry)
        ensures
            r.entries@.len() == 0,
            r.wf(),
    {
        Registry { entries: Vec::new() }
    }

    /// The handle bound to `name`, if any; a non-blocking read.
    pub fn lookup(&self, name: &str) -> (r: Option<&LedgerHandle>)
        requires
            self.wf(),
        ensures
            r is Some <==> self.spec_contains(name@),
            r is Some ==> exists|i: int| 0 <= i < self.entries@.len()
                && (#[trigger] self.entries@[i]).name@ == name@
                && r->0.address_bytes@ == self.entries@[i].handle.address_bytes@,
    {
        let mut i: usize = 0;
        while i < self.entries.len()
            invariant
                i <= self.entries@.len(),
                forall|k: int| 0 <= k < i ==> (#[trigger] self.entries@[k]).name@ != name@,
            decreases self.entries@.len() - i,
        {
            let entry = &self.entries[i];
            if str_eq(entry.name.as_str(), name) {
                return Some(&entry.handle);
            }
            i = i + 1;
        }
        None
    }

    /// Binds `name` to `handle` unless a binding already exists; reports
    /// whether it inserted. An existing binding is never overwritten.
    pub fn insert_if_absent(&mut self, name: String, handle: LedgerHandle) -> (r: bool)
        requires
            old(self).wf(),
        ensures
            r == !old(self).spec_contains(name@),
            r ==> final(self).entries@ =~= old(self).entries@.push(
                RegistryEntry { name, handle },
            ),
            !r ==> final(self).entries@ =~= old(self).entries@,
            final(self).wf(),
    {
        let mut i: usize = 0;
        while i < self.entries.len()
            invariant
                i <= self.entries@.len(),
                self.entries@ == old(self).entries@,
                old(self).wf(),
                forall|k: int| 0 <= k < i ==> (#[trigger] self.entries@[k]).name@ != name@,
            decreases self.entries@.len() - i,
        {
            if str_eq(self.entries[i].name.as_str(), name.as_str()) {
                proof {
                    assert(self.wf());
                }
                return false;
            }
            i = i + 1;
        }
        self.entries.push(RegistryEntry { name, handle });
        true
    }
}

/// The response of a successful repository creation.
#[derive(Debug, Clone)]
pub struct CreateRepoResponse {
    pub repo: String,
    pub address: String,
}

/// The pre-deployment half of repository creation: a name that already has
/// a handle is refused before any ledger work is started.
pub fn check_new_repository(reg: &Registry, name: &str) -> (r: Result<(), Error>)
    requires
        reg.wf(),
    ensures
        r is Ok <==> !reg.spec_contains(name@),
        r is Err ==> r->Err_0 is AlreadyExists,
{
    match reg.lookup(name) {
        Some(_) => Err(Error::AlreadyExists),
        None => Ok(()),
    }
}

/// The post-deployment half of repository creation: binds the name to the
/// freshly deployed handle and shapes the response. A binding that appeared
/// meanwhile is an error, and the existing binding stays untouched.
pub fn register_repository(reg: &mut Registry, name: String, handle: LedgerHandle) -> (r: Result<
    CreateRepoResponse,
    Error,
>)
    requires
        old(reg).wf(),
    ensures
        final(reg).wf(),
        r is Ok <==> !old(reg).spec_contains(name@),
        r is Ok ==> ({
            &&& final(reg).entries@ =~= old(reg).entries@.push(RegistryEntry {
                name: r->Ok_0.repo,
                handle,
            })
            &&& r->Ok_0.repo@ == name@
            &&& r->Ok_0.address@ =~= "0x"@ + crate::ledger::spec_hex_of_bytes(
                handle.address_bytes@,
            )
        }),
        r is Err ==> final(reg).entries@ =~= old(reg).entries@ && r->Err_0 is AlreadyExists,
{
    let address = handle.address();
    let repo = name.clone();
    if reg.insert_if_absent(name, handle) {
        Ok(CreateRepoResponse { repo, address })
    } else {
        Err(Error::AlreadyExists)
    }
}

} // verus!
