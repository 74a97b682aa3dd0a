//! The compliance registry: accounts barred from initiating or receiving
//! transfers, mutated only by the denylister authority, which the owner
//! reassigns.

use vstd::prelude::*;
use crate::account::AccountId;
use crate::errors::Error;
use crate::events::DenylisterChanged;
use crate::events::Denylisted;
use crate::events::Event;
use crate::events::UnDenylisted;
use crate::state::MessageTransmitter;
use crate::state::contains_account;
use crate::state::duplicate_free;
use crate::state::no_duplicates;

verus! {

/// The denylist and the authority allowed to mutate it.
pub struct Denylist {
    /// Sole authority over the list; reassignable only by the owner.
    pub denylister: AccountId,
    /// The denylisted accounts, each held at most once.
    pub accounts: Vec<AccountId>,
}

impl Denylist {
    /// The list holds no account twice.
    pub open spec fn well_formed(self) -> bool {
        no_duplicates(self.accounts@)
    }

    /// `account` is currently denylisted.
    pub open spec fn spec_denylisted(self, account: AccountId) -> bool {
        self.accounts@.contains(account)
    }

    /// An empty denylist under the given authority.
    pub fn new(denylister: AccountId) -> (r: Denylist)
        ensures
            r.well_formed(),
            r.denylister == denylister,
            forall|a: AccountId| !r.spec_denylisted(a),
    {
        let d = Denylist { denylister, accounts: Vec::new() };
        proof {
            assert forall|a: AccountId| !d.spec_denylisted(a) by {
                if d.spec_denylisted(a) {
                    let w = choose|i: int| 0 <= i < d.accounts@.len() && d.accounts@[i] == a;
                }
            }
        }
        d
    }

    /// Checks the registry invariant on the current state.
    pub fn validate(&self) -> (r: bool)
        ensures
            r == self.well_formed(),
    {
        duplicate_free(&self.accounts)
    }

    /// Reports whether `account` is denylisted, checked at operation time.
    pub fn is_denylisted(&self, account: AccountId) -> (r: bool)
        ensures
            r == self.spec_denylisted(account),
    {
        contains_account(&self.accounts, account)
    }

    /// Reassigns the denylister authority: owner-gated.
    pub fn set_denylister(
        &mut self,
        gov: &MessageTransmitter,
        caller: AccountId,
        new_denylister: AccountId,
        log: &mut Vec<Event>,
    ) -> (r: Result<(), Error>)
        ensures
            r is Ok <==> caller == gov.owner,
            r is Err ==> r == Err::<(), Error>(Error::Unauthorized) && *final(self) == *old(self)
                && final(log)@ == old(log)@,
            r is Ok ==> {
                &&& final(self).denylister == new_denylister
                &&& final(self).accounts@ == old(self).accounts@
                &&& final(log)@ == old(log)@.push(Event::DenylisterChanged(DenylisterChanged {
                    old_denylister: old(self).denylister,
                    new_denylister,
                }))
            },
    {
        if caller != gov.owner {
            return Err(Error::Unauthorized);
        }
        let old_denylister = self.denylister;
        self.denylister = new_denylister;
        log.push(Event::DenylisterChanged(DenylisterChanged { old_denylister, new_denylister }));
        Ok(())
    }

    /// Denylists an account: denylister-gated. Denylisting an account
    /// already on the list leaves the list as it is and still emits the
    /// event, for audit-trail simplicity.
    pub fn denylist(
        &mut self,
        caller: AccountId,
        account: AccountId,
        log: &mut Vec<Event>,
    ) -> (r: Result<(), Error>)
        requires
            old(self).well_formed(),
        ensures
            final(self).well_formed(),
            r is Ok <==> caller == old(self).denylister,
            r is Err ==> r == Err::<(), Error>(Error::Unauthorized) && *final(self) == *old(self)
                && final(log)@ == old(log)@,
            r is Ok ==> {
                &&& final(self).spec_denylisted(account)
                &&& final(self).accounts@ == if old(self).spec_denylisted(account) {
                    old(self).accounts@
                } else {
                    old(self).accounts@.push(account)
                }
                &&& final(self).denylister == old(self).denylister
                &&& final(log)@ == old(log)@.push(Event::Denylisted(Denylisted { account }))
            },
    {
        if caller != self.denylister {
            return Err(Error::Unauthorized);
        }
        if !contains_account(&self.accounts, account) {
            self.accounts.push(account);
            proof {
                let pre = old(self).accounts@;
                let post = self.accounts@;
                assert(post[pre.len() as int] == account);
                assert forall|i: int, j: int| 0 <= i < j < post.len() implies post[i] != post[j] by {
                    if j == pre.len() as int {
                        assert(post[i] == pre[i]);
                        assert(pre[i] != account);
                    }
                }
            }
        }
        assert(self.spec_denylisted(account));
        log.push(Event::Denylisted(Denylisted { account }));
        Ok(())
    }

    /// Removes an account from the denylist: denylister-gated. Removing an
    /// account not on the list leaves the list as it is and still emits the
    /// event.
    pub fn un_denylist(
        &mut self,
        caller: AccountId,
        account: AccountId,
        log: &mut Vec<Event>,
    ) -> (r: Result<(), Error>)
        requires
            old(self).well_formed(),
        ensures
            final(self).well_formed(),
            r is Ok <==> caller == old(self).denylister,
            r is Err ==> r == Err::<(), Error>(Error::Unauthorized) && *final(self) == *old(self)
                && final(log)@ == old(log)@,
            r is Ok ==> {
                &&& !final(self).spec_denylisted(account)
                &&& final(self).accounts@ == if old(self).spec_denylisted(account) {
                    old(self).accounts@.remove(old(self).accounts@.index_of(account))
                } else {
                    old(self).accounts@
                }
                &&& final(self).denylister == old(self).denylister
                &&& final(log)@ == old(log)@.push(Event::UnDenylisted(UnDenylisted { account }))
            },
    {
        if caller != self.denylister {
            return Err(Error::Unauthorized);
        }
        let mut position: usize = 0;
        let mut found: bool = false;
        let n = self.accounts.len();
        let mut k: usize = 0;
        while k < n
            invariant
                n == self.accounts@.len(),
                k <= n,
                !found ==> forall|t: int| 0 <= t < k ==> self.accounts@[t] != account,
                found ==> position < n && self.accounts@[position as int] == account,
            decreases n - k,
        {
            if !found && self.accounts[k] == account {
                found = true;
                position = k;
            }
            k += 1;
        }
        if found {
            proof {
                let s = self.accounts@;
                assert(s.contains(account));
                let i = s.index_of(account);
                assert(0 <= i < s.len() && s[i] == account);
                assert(i == position as int);
                s.remove_ensures(i);
            }
            self.accounts.remove(position);
            proof {
                let pre = old(self).accounts@;
                let i = pre.index_of(account);
                pre.remove_ensures(i);
                let post = self.accounts@;
                assert forall|p: int, q: int| 0 <= p < q < post.len() implies post[p] != post[q] by {
                    let p0: int = if p < i { p } else { p + 1 };
                    let q0: int = if q < i { q } else { q + 1 };
                    assert(post[p] == pre[p0]);
                    assert(post[q] == pre[q0]);
                }
                assert(!self.spec_denylisted(account)) by {
                    if post.contains(account) {
                        let w = choose|t: int| 0 <= t < post.len() && post[t] == account;
                        if w < i {
                            assert(pre[w] == account);
                        } else {
                            assert(pre[w + 1] == account);
                        }
                    }
                }
            }
        } else {
            assert(!self.spec_denylisted(account)) by {
                if self.accounts@.contains(account) {
                    let w = choose|t: int| 0 <= t < self.accounts@.len() && self.accounts@[t]
                        == account;
                    assert(self.accounts@[w] != account);
                }
            }
        }
        log.push(Event::UnDenylisted(UnDenylisted { account }));
        Ok(())
    }
}

} // verus!
