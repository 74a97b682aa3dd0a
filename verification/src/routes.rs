//! The domain-route registry: a map from remote domain to the counterpart
//! module on that domain, owner-gated, with each domain registered at most
//! once at a time.

use vstd::prelude::*;
use crate::account::AccountId;
use crate::errors::Error;
use crate::events::Event;
use crate::events::RemoteTokenMessengerAdded;
use crate::events::RemoteTokenMessengerRemoved;
use crate::state::MessageTransmitter;

verus! {

/// One registered route: the counterpart module on a remote domain.
#[derive(Clone, Copy, Debug, PartialEq, Eq, Structural)]
pub struct RemoteTokenMessenger {
    pub domain: u32,
    pub token_messenger: AccountId,
}

/// No domain appears twice in the sequence.
pub open spec fn unique_domains(s: Seq<RemoteTokenMessenger>) -> bool {
    forall|i: int, j: int| 0 <= i < j < s.len() ==> s[i].domain != s[j].domain
}

/// The route registry, in registration order.
pub struct RemoteRouter {
    pub routes: Vec<RemoteTokenMessenger>,
}

impl RemoteRouter {
    /// The registry invariant: each domain is registered at most once.
    pub open spec fn well_formed(self) -> bool {
        unique_domains(self.routes@)
    }

    /// `domain` currently has a route.
    pub open spec fn spec_registered(self, domain: u32) -> bool {
        exists|i: int| 0 <= i < self.routes@.len() && self.routes@[i].domain == domain
    }

    /// The position of `domain`'s route; meaningful only while registered.
    pub open spec fn route_index(self, domain: u32) -> int {
        choose|i: int| 0 <= i < self.routes@.len() && self.routes@[i].domain == domain
    }

    /// The counterpart module registered for `domain`, if any.
    pub open spec fn spec_route(self, domain: u32) -> Option<AccountId> {
        if self.spec_registered(domain) {
            Some(self.routes@[self.route_index(domain)].token_messenger)
        } else {
            None
        }
    }

    /// An empty registry: no domain routed.
    pub fn new() -> (r: RemoteRouter)
        ensures
            r.well_formed(),
            r.routes@ == Seq::<RemoteTokenMessenger>::empty(),
            forall|d: u32| !r.spec_registered(d),
    {
        RemoteRouter { routes: Vec::new() }
    }

    /// Checks the registry invariant on the current state.
    pub fn validate(&self) -> (r: bool)
        ensures
            r == self.well_formed(),
    {
        let mut i: usize = 0;
        while i < self.routes.len()
            invariant
                i <= self.routes@.len(),
                forall|p: int, q: int|
                    0 <= p < q < self.routes@.len() && p < i ==> self.routes@[p].domain
                        != self.routes@[q].domain,
            decreases self.routes@.len() - i,
        {
            let mut j: usize = i + 1;
            while j < self.routes.len()
                invariant
                    i < j,
                    i < self.routes@.len(),
                    j <= self.routes@.len(),
                    forall|q: int|
                        i < q < j ==> self.routes@[i as int].domain != self.routes@[q].domain,
                decreases self.routes@.len() - j,
            {
                if self.routes[i].domain == self.routes[j].domain {
                    return false;
                }
                j += 1;
            }
            i += 1;
        }
        true
    }

    /// Looks the route for `domain` up.
    pub fn remote_token_messenger(&self, domain: u32) -> (r: Option<AccountId>)
        requires
            self.well_formed(),
        ensures
            r == self.spec_route(domain),
            r is Some <==> self.spec_registered(domain),
    {
        let mut i: usize = 0;
        while i < self.routes.len()
            invariant
                i <= self.routes@.len(),
                forall|k: int| 0 <= k < i ==> self.routes@[k].domain != domain,
                self.well_formed(),
            decreases self.routes@.len() - i,
        {
            if self.routes[i].domain == domain {
                proof {
                    assert(self.spec_registered(domain));
                    let j = self.route_index(domain);
                    assert(0 <= j < self.routes@.len() && self.routes@[j].domain == domain);
                    assert(j == i as int);
                }
                return Some(self.routes[i].token_messenger);
            }
            i += 1;
        }
        assert(!self.spec_registered(domain)) by {
            if self.spec_registered(domain) {
                let w = choose|k: int|
                    0 <= k < self.routes@.len() && self.routes@[k].domain == domain;
                assert(self.routes@[w].domain != domain);
            }
        }
        None
    }

    /// Registers a route: owner-gated and refused while the domain already
    /// has one.
    pub fn add_remote_token_messenger(
        &mut self,
        gov: &MessageTransmitter,
        caller: AccountId,
        domain: u32,
        token_messenger: AccountId,
        log: &mut Vec<Event>,
    ) -> (r: Result<(), Error>)
        requires
            old(self).well_formed(),
        ensures
            final(self).well_formed(),
            r is Ok <==> (caller == gov.owner && !old(self).spec_registered(domain)),
            caller != gov.owner ==> r == Err::<(), Error>(Error::Unauthorized),
            caller == gov.owner && old(self).spec_registered(domain) ==> r == Err::<(), Error>(
                Error::DomainAlreadyRegistered,
            ),
            r is Err ==> *final(self) == *old(self) && final(log)@ == old(log)@,
            r is Ok ==> {
                &&& final(self).routes@ == old(self).routes@.push(
                    (RemoteTokenMessenger { domain, token_messenger }),
                )
                &&& final(self).spec_route(domain) == Some(token_messenger)
                &&& final(log)@ == old(log)@.push(Event::RemoteTokenMessengerAdded(
                    RemoteTokenMessengerAdded { domain, token_messenger },
                ))
            },
    {
        if caller != gov.owner {
            return Err(Error::Unauthorized);
        }
        let mut registered: bool = false;
        let n = self.routes.len();
        let mut i: usize = 0;
        while i < n
            invariant
                n == self.routes@.len(),
                i <= n,
                !registered ==> forall|k: int| 0 <= k < i ==> self.routes@[k].domain != domain,
                registered ==> self.spec_registered(domain),
            decreases n - i,
        {
            if !registered && self.routes[i].domain == domain {
                proof {
                    assert(self.routes@[i as int].domain == domain);
                }
                registered = true;
            }
            i += 1;
        }
        if registered {
            return Err(Error::DomainAlreadyRegistered);
        }
        assert(!self.spec_registered(domain)) by {
            if self.spec_registered(domain) {
                let w = choose|k: int|
                    0 <= k < self.routes@.len() && self.routes@[k].domain == domain;
                assert(self.routes@[w].domain != domain);
            }
        }
        self.routes.push(RemoteTokenMessenger { domain, token_messenger });
        proof {
            let pre = old(self).routes@;
            let post = self.routes@;
            assert forall|p: int, q: int| 0 <= p < q < post.len() implies post[p].domain
                != post[q].domain by {
                if q == pre.len() as int {
                    assert(post[p] == pre[p]);
                }
            }
            assert(post[pre.len() as int].domain == domain);
            assert(self.spec_registered(domain));
            let j = self.route_index(domain);
            assert(0 <= j < post.len() && post[j].domain == domain);
            assert forall|k: int| 0 <= k < pre.len() implies post[k].domain != domain by {
                assert(post[k] == pre[k]);
            }
            assert(j == pre.len() as int);
        }
        log.push(Event::RemoteTokenMessengerAdded(RemoteTokenMessengerAdded {
            domain,
            token_messenger,
        }));
        Ok(())
    }

    /// Removes a route: owner-gated and refused while the domain has none.
    /// The emitted event reports the module value that was removed.
    pub fn remove_remote_token_messenger(
        &mut self,
        gov: &MessageTransmitter,
        caller: AccountId,
        domain: u32,
        log: &mut Vec<Event>,
    ) -> (r: Result<(), Error>)
        requires
            old(self).well_formed(),
        ensures
            final(self).well_formed(),
            r is Ok <==> (caller == gov.owner && old(self).spec_registered(domain)),
            caller != gov.owner ==> r == Err::<(), Error>(Error::Unauthorized),
            caller == gov.owner && !old(self).spec_registered(domain) ==> r == Err::<(), Error>(
                Error::DomainNotRegistered,
            ),
            r is Err ==> *final(self) == *old(self) && final(log)@ == old(log)@,
            r is Ok ==> {
                &&& final(self).routes@ == old(self).routes@.remove(
                    old(self).route_index(domain),
                )
                &&& !final(self).spec_registered(domain)
                &&& final(log)@ == old(log)@.push(Event::RemoteTokenMessengerRemoved(
                    RemoteTokenMessengerRemoved {
                        domain,
                        token_messenger: old(self).spec_route(domain)->Some_0,
                    },
                ))
            },
    {
        if caller != gov.owner {
            return Err(Error::Unauthorized);
        }
        let mut position: usize = 0;
        let mut found: bool = false;
        let n = self.routes.len();
        let mut k: usize = 0;
        while k < n
            invariant
                n == self.routes@.len(),
                k <= n,
                !found ==> forall|t: int| 0 <= t < k ==> self.routes@[t].domain != domain,
                found ==> position < n && self.routes@[position as int].domain == domain,
            decreases n - k,
        {
            if !found && self.routes[k].domain == domain {
                found = true;
                position = k;
            }
            k += 1;
        }
        if !found {
            assert(!self.spec_registered(domain)) by {
                if self.spec_registered(domain) {
                    let w = choose|t: int|
                        0 <= t < self.routes@.len() && self.routes@[t].domain == domain;
                    assert(self.routes@[w].domain != domain);
                }
            }
            return Err(Error::DomainNotRegistered);
        }
        assert(self.spec_registered(domain));
        let removed = self.routes[position].token_messenger;
        proof {
            let s = self.routes@;
            let i = self.route_index(domain);
            assert(0 <= i < s.len() && s[i].domain == domain);
            assert(i == position as int);
            s.remove_ensures(i);
        }
        self.routes.remove(position);
        proof {
            let pre = old(self).routes@;
            let i = old(self).route_index(domain);
            pre.remove_ensures(i);
            let post = self.routes@;
            assert forall|p: int, q: int| 0 <= p < q < post.len() implies post[p].domain
                != post[q].domain by {
                let p0: int = if p < i { p } else { p + 1 };
                let q0: int = if q < i { q } else { q + 1 };
                assert(post[p] == pre[p0]);
                assert(post[q] == pre[q0]);
            }
            assert(!self.spec_registered(domain)) by {
                if self.spec_registered(domain) {
                    let w = choose|t: int| 0 <= t < post.len() && post[t].domain == domain;
                    if w < i {
                        assert(pre[w].domain == domain);
                    } else {
                        assert(pre[w + 1].domain == domain);
                    }
                }
            }
        }
        log.push(Event::RemoteTokenMessengerRemoved(RemoteTokenMessengerRemoved {
            domain,
            token_messenger: removed,
        }));
        Ok(())
    }
}

} // verus!
