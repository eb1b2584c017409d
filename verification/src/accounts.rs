//! The command-line front end's account book: named accounts, each with a
//! signing key and an address, and the choice of the active one. The shell
//! loads and saves this from its configuration file; every decision about
//! its contents is made here.

use vstd::prelude::*;
use crate::errors::Error;
use crate::text::str_eq;

verus! {

/// One stored account.
#[derive(Debug)]
pub struct Account {
    pub name: String,
    pub private_key: String,
    pub address: String,
}

impl Account {
    /// A field-by-field copy.
    pub fn duplicate(&self) -> (r: Account)
        ensures
            r.name@ == self.name@,
            r.private_key@ == self.private_key@,
            r.address@ == self.address@,
    {
        Account {
            name: self.name.clone(),
            private_key: self.private_key.clone(),
            address: self.address.clone(),
        }
    }
}

/// The account book: the accounts and the name of the active one, if any.
#[derive(Debug)]
pub struct Config {
    pub accounts: Vec<Account>,
    pub active_account: Option<String>,
}

/// The first index holding an account of this name, or -1.
pub open spec fn spec_account_index(accounts: Seq<Account>, name: Seq<char>) -> int
    decreases accounts.len(),
{
    if accounts.len() == 0 {
        -1
    } else if accounts[0].name@ == name {
        0
    } else {
        let r = spec_account_index(accounts.drop_first(), name);
        if r == -1 {
            -1
        } else {
            r + 1
        }
    }
}

proof fn lemma_account_index_found(accounts: Seq<Account>, name: Seq<char>, i: int)
    requires
        0 <= i < accounts.len(),
        accounts[i].name@ == name,
        forall|k: int| 0 <= k < i ==> (#[trigger] accounts[k]).name@ != name,
    ensures
        spec_account_index(accounts, name) == i,
    decreases i,
{
    if i > 0 {
        let t = accounts.drop_first();
        assert(forall|k: int| 0 <= k < i - 1 ==> (#[trigger] t[k]).name@ != name);
        lemma_account_index_found(t, name, i - 1);
    }
}

proof fn lemma_account_index_none(accounts: Seq<Account>, name: Seq<char>)
    requires
        forall|k: int| 0 <= k < accounts.len() ==> (#[trigger] accounts[k]).name@ != name,
    ensures
        spec_account_index(accounts, name) == -1,
    decreases accounts.len(),
{
    if accounts.len() > 0 {
        lemma_account_index_none(accounts.drop_first(), name);
    }
}

impl Config {
    /// An empty account book.
    pub fn new() -> (r: Config)
        ensures
            r.accounts@.len() == 0,
            r.active_account is None,
    {
        Config { accounts: Vec::new(), active_account: None }
    }

    /// The index of the named account, or the length when there is none.
    fn find(&self, name: &str) -> (r: usize)
        ensures
            r <= self.accounts@.len(),
            r < self.accounts@.len() ==> spec_account_index(self.accounts@, name@) == r as int,
            r == self.accounts@.len() ==> spec_account_index(self.accounts@, name@) == -1,
    {
        let mut i: usize = 0;
        while i < self.accounts.len()
            invariant
                i <= self.accounts@.len(),
                forall|k: int| 0 <= k < i ==> (#[trigger] self.accounts@[k]).name@ != name@,
            decreases self.accounts@.len() - i,
        {
            if str_eq(self.accounts[i].name.as_str(), name) {
                proof {
                    lemma_account_index_found(self.accounts@, name@, i as int);
                }
                return i;
            }
            i = i + 1;
        }
        proof {
            lemma_account_index_none(self.accounts@, name@);
        }
        self.accounts.len()
    }

    /// Stores an account: a first account becomes the active one, and an
    /// account of the same name is replaced in place.
    pub fn add_account(&mut self, account: Account)
        ensures
            ({
                let idx = spec_account_index(old(self).accounts@, account.name@);
                &&& (old(self).accounts@.len() == 0 ==> (final(self).active_account matches
                    Some(n) && n@ == account.name@))
                &&& (old(self).accounts@.len() > 0 ==> final(self).active_account
                    == old(self).active_account)
                &&& (idx >= 0 ==> final(self).accounts@ =~= old(self).accounts@.update(
                    idx, account))
                &&& (idx == -1 ==> final(self).accounts@ =~= old(self).accounts@.push(account))
            }),
    {
        if self.accounts.len() == 0 {
            self.active_account = Some(account.name.clone());
        }
        let i = self.find(account.name.as_str());
        if i < self.accounts.len() {
            self.accounts.remove(i);
            self.accounts.insert(i, account);
            proof {
                assert(self.accounts@ =~= old(self).accounts@.update(i as int, account));
            }
        } else {
            self.accounts.push(account);
        }
    }

    /// Removes the named account if present. When the active account was the
    /// one removed, the first remaining account (if any) becomes active.
    pub fn remove_account(&mut self, name: &str)
        ensures
            ({
                let idx = spec_account_index(old(self).accounts@, name@);
                &&& (idx >= 0 ==> final(self).accounts@ =~= old(self).accounts@.remove(idx))
                &&& (idx == -1 ==> final(self).accounts@ =~= old(self).accounts@)
            }),
            ({
                let was_active = old(self).active_account matches Some(a) && a@ == name@;
                &&& (!was_active ==> final(self).active_account == old(self).active_account)
                &&& (was_active && final(self).accounts@.len() == 0
                    ==> final(self).active_account is None)
                &&& (was_active && final(self).accounts@.len() > 0
                    ==> (final(self).active_account matches Some(n)
                        && n@ == final(self).accounts@[0].name@))
            }),
    {
        let i = self.find(name);
        if i < self.accounts.len() {
            self.accounts.remove(i);
        }
        let was_active = match &self.active_account {
            Some(a) => str_eq(a.as_str(), name),
            None => false,
        };
        if was_active {
            if self.accounts.len() > 0 {
                self.active_account = Some(self.accounts[0].name.clone());
            } else {
                self.active_account = None;
            }
        }
    }

    /// Makes the named account active; a name without an account is refused
    /// and nothing changes.
    pub fn set_active_account(&mut self, name: &str) -> (r: Result<(), Error>)
        ensures
            r is Ok <==> spec_account_index(old(self).accounts@, name@) >= 0,
            final(self).accounts@ == old(self).accounts@,
            r is Ok ==> (final(self).active_account matches Some(n) && n@ == name@),
            r is Err ==> final(self).active_account == old(self).active_account,
            r is Err ==> (r->Err_0 matches Error::Malformed { message }
                && message@ =~= "Account '"@ + name@ + "' not found"@),
    {
        let i = self.find(name);
        if i < self.accounts.len() {
            self.active_account = Some(name.to_owned());
            Ok(())
        } else {
            let mut message = "Account '".to_owned();
            message.append(name);
            message.append("' not found");
            Err(Error::Malformed { message })
        }
    }

    /// The active account, when one is named and still present.
    pub fn get_active_account(&self) -> (r: Option<&Account>)
        ensures
            ({
                match self.active_account {
                    Some(n) => {
                        let idx = spec_account_index(self.accounts@, n@);
                        &&& (r is Some <==> idx >= 0)
                        &&& (idx >= 0 ==> (r matches Some(a) && *a == self.accounts@[idx]))
                    },
                    None => r is None,
                }
            }),
    {
        match &self.active_account {
            Some(n) => {
                let i = self.find(n.as_str());
                if i < self.accounts.len() {
                    Some(&self.accounts[i])
                } else {
                    None
                }
            },
            None => None,
        }
    }

    /// Every account, paired with its name and whether it is the active one.
    pub fn list_accounts(&self) -> (r: Vec<(String, Account, bool)>)
        ensures
            r@.len() == self.accounts@.len(),
            forall|i: int| 0 <= i < r@.len() ==> {
                &&& (#[trigger] r@[i]).0@ == self.accounts@[i].name@
                &&& r@[i].1.name@ == self.accounts@[i].name@
                &&& r@[i].1.private_key@ == self.accounts@[i].private_key@
                &&& r@[i].1.address@ == self.accounts@[i].address@
                &&& r@[i].2 == (self.active_account matches Some(n)
                    && n@ == self.accounts@[i].name@)
            },
    {
        let mut out: Vec<(String, Account, bool)> = Vec::new();
        let mut i: usize = 0;
        while i < self.accounts.len()
            invariant
                i <= self.accounts@.len(),
                out@.len() == i,
                forall|k: int| 0 <= k < i ==> {
                    &&& (#[trigger] out@[k]).0@ == self.accounts@[k].name@
                    &&& out@[k].1.name@ == self.accounts@[k].name@
                    &&& out@[k].1.private_key@ == self.accounts@[k].private_key@
                    &&& out@[k].1.address@ == self.accounts@[k].address@
                    &&& out@[k].2 == (self.active_account matches Some(n)
                        && n@ == self.accounts@[k].name@)
                },
            decreases self.accounts@.len() - i,
        {
            let account = &self.accounts[i];
            let is_active = match &self.active_account {
                Some(n) => str_eq(n.as_str(), account.name.as_str()),
                None => false,
            };
            out.push((account.name.clone(), account.duplicate(), is_active));
            i = i + 1;
        }
        out
    }
}

} // verus!
