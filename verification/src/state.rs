//! The governance state of one deployed module instance: roles, pause flag,
//! attester registry, and immutable deployment configuration.

use vstd::prelude::*;
use crate::account::AccountId;
use crate::errors::Error;
use crate::events::AttesterEnabled;
use crate::events::AttesterManagerUpdated;
use crate::events::Event;
use crate::events::OwnershipTransferStarted;
use crate::events::OwnershipTransferred;
use crate::events::Paused;
use crate::events::PauserUpdated;
use crate::events::Unpaused;

verus! {

/// The sequence holds no entry twice.
pub open spec fn no_duplicates(s: Seq<AccountId>) -> bool {
    forall|i: int, j: int| 0 <= i < j < s.len() ==> s[i] != s[j]
}

/// The registry invariant over its two mutable parts: the threshold is at
/// least one and satisfiable by the distinct enabled attesters.
pub open spec fn registry_wf(attesters: Seq<AccountId>, threshold: u32) -> bool {
    &&& 1 <= threshold
    &&& threshold as nat <= attesters.len()
    &&& no_duplicates(attesters)
}

/// Parameters of the one-time initialization call.
#[derive(Clone, Copy, Debug, PartialEq, Eq, Structural)]
pub struct InitializeParams {
    pub local_domain: u32,
    pub attester: AccountId,
    pub max_message_body_size: u64,
    pub version: u32,
}

/// Governance state. Created once per module instance; every mutation is
/// gated by the role with authority over the touched fields and preserves
/// [`MessageTransmitter::well_formed`].
pub struct MessageTransmitter {
    /// Ultimate authority; transferable only by two-step handshake.
    pub owner: AccountId,
    /// Candidate of an outstanding ownership transfer, if any.
    pub pending_owner: Option<AccountId>,
    /// Sole authority over the attester registry.
    pub attester_manager: AccountId,
    /// Sole authority over the pause flag.
    pub pauser: AccountId,
    /// While set, all transfer-accounting operations are refused.
    pub paused: bool,
    /// Home domain of this instance; immutable after creation.
    pub local_domain: u32,
    /// Message-format version accepted; immutable after creation.
    pub version: u32,
    /// Minimum number of distinct attester signatures required.
    pub signature_threshold: u32,
    /// Enabled attesters, in enable order, without duplicates.
    pub enabled_attesters: Vec<AccountId>,
    /// Upper bound on message payload size.
    pub max_message_body_size: u64,
}

/// The four role fields agree between `a` and `b`.
pub open spec fn same_roles(a: MessageTransmitter, b: MessageTransmitter) -> bool {
    &&& a.owner == b.owner
    &&& a.pending_owner == b.pending_owner
    &&& a.attester_manager == b.attester_manager
    &&& a.pauser == b.pauser
}

/// Threshold and attester sequence agree between `a` and `b`.
pub open spec fn same_attester_registry(a: MessageTransmitter, b: MessageTransmitter) -> bool {
    &&& a.signature_threshold == b.signature_threshold
    &&& a.enabled_attesters@ == b.enabled_attesters@
}

/// The immutable deployment configuration agrees between `a` and `b`.
pub open spec fn same_config(a: MessageTransmitter, b: MessageTransmitter) -> bool {
    &&& a.local_domain == b.local_domain
    &&& a.version == b.version
    &&& a.max_message_body_size == b.max_message_body_size
}

impl MessageTransmitter {
    /// The registry invariant: a satisfiable quorum over distinct attesters.
    /// A state failing this is never persisted.
    pub open spec fn well_formed(self) -> bool {
        registry_wf(self.enabled_attesters@, self.signature_threshold)
    }

    /// Checks the registry invariant on the current state.
    pub fn validate(&self) -> (r: bool)
        ensures
            r == self.well_formed(),
    {
        if self.signature_threshold < 1 {
            return false;
        }
        if (self.signature_threshold as usize) > self.enabled_attesters.len() {
            return false;
        }
        duplicate_free(&self.enabled_attesters)
    }
}

/// Reports whether `v` holds `a`.
pub fn contains_account(v: &Vec<AccountId>, a: AccountId) -> (r: bool)
    ensures
        r == v@.contains(a),
{
    let mut i: usize = 0;
    while i < v.len()
        invariant
            i <= v@.len(),
            forall|k: int| 0 <= k < i ==> v@[k] != a,
        decreases v@.len() - i,
    {
        if v[i] == a {
            assert(v@.contains(a));
            return true;
        }
        i += 1;
    }
    assert(!v@.contains(a)) by {
        if v@.contains(a) {
            let k = choose|k: int| 0 <= k < v@.len() && v@[k] == a;
            assert(v@[k] != a);
        }
    }
    false
}

/// Reports whether `v` holds no entry twice.
pub fn duplicate_free(v: &Vec<AccountId>) -> (r: bool)
    ensures
        r == no_duplicates(v@),
{
    let mut i: usize = 0;
    while i < v.len()
        invariant
            i <= v@.len(),
            forall|p: int, q: int| 0 <= p < q < v@.len() && p < i ==> v@[p] != v@[q],
        decreases v@.len() - i,
    {
        let mut j: usize = i + 1;
        while j < v.len()
            invariant
                i < j,
                i < v@.len(),
                j <= v@.len(),
                forall|q: int| i < q < j ==> v@[i as int] != v@[q],
            decreases v@.len() - j,
        {
            if v[i] == v[j] {
                return false;
            }
            j += 1;
        }
        i += 1;
    }
    true
}

/// Creates the module instance: the one-time setup of governance state,
/// seeding a singleton attester registry with threshold one. Fails without
/// effect if `caller` is not the deployment's upgrade authority or if the
/// instance already exists.
pub fn initialize(
    slot: &mut Option<MessageTransmitter>,
    log: &mut Vec<Event>,
    caller: AccountId,
    upgrade_authority: AccountId,
    params: &InitializeParams,
) -> (r: Result<(), Error>)
    ensures
        r is Ok <==> (caller == upgrade_authority && (*old(slot)) is None),
        caller != upgrade_authority ==> r == Err::<(), Error>(Error::InvalidProgramExecutable),
        caller == upgrade_authority && (*old(slot)) is Some ==> r == Err::<(), Error>(Error::AlreadyInitialized),
        r is Err ==> *final(slot) == *old(slot) && final(log)@ == old(log)@,
        r is Ok ==> {
            &&& (*final(slot)) is Some
            &&& (*final(slot))->Some_0.well_formed()
            &&& (*final(slot))->Some_0.owner == caller
            &&& (*final(slot))->Some_0.pending_owner is None
            &&& (*final(slot))->Some_0.attester_manager == caller
            &&& (*final(slot))->Some_0.pauser == caller
            &&& !(*final(slot))->Some_0.paused
            &&& (*final(slot))->Some_0.local_domain == params.local_domain
            &&& (*final(slot))->Some_0.version == params.version
            &&& (*final(slot))->Some_0.signature_threshold == 1
            &&& (*final(slot))->Some_0.enabled_attesters@ == seq![params.attester]
            &&& (*final(slot))->Some_0.max_message_body_size == params.max_message_body_size
            &&& final(log)@ == old(log)@
                .push(Event::AttesterEnabled(AttesterEnabled { attester: params.attester }))
                .push(Event::AttesterManagerUpdated(AttesterManagerUpdated {
                    previous_attester_manager: None,
                    new_attester_manager: caller,
                }))
        },
{
    if caller != upgrade_authority {
        return Err(Error::InvalidProgramExecutable);
    }
    if slot.is_some() {
        return Err(Error::AlreadyInitialized);
    }
    let mut enabled_attesters: Vec<AccountId> = Vec::new();
    enabled_attesters.push(params.attester);
    let transmitter = MessageTransmitter {
        owner: caller,
        pending_owner: None,
        attester_manager: caller,
        pauser: caller,
        paused: false,
        local_domain: params.local_domain,
        version: params.version,
        signature_threshold: 1,
        enabled_attesters,
        max_message_body_size: params.max_message_body_size,
    };
    assert(transmitter.enabled_attesters@ =~= seq![params.attester]);
    if !transmitter.validate() {
        return Err(Error::InvalidMessageTransmitterState);
    }
    *slot = Some(transmitter);
    log.push(Event::AttesterEnabled(AttesterEnabled { attester: params.attester }));
    log.push(Event::AttesterManagerUpdated(AttesterManagerUpdated {
        previous_attester_manager: None,
        new_attester_manager: caller,
    }));
    Ok(())
}

/// Owner and pending owner after a `transfer_ownership` call by `caller`,
/// with the call's result.
pub open spec fn transfer_ownership_outcome(
    owner: AccountId,
    pending: Option<AccountId>,
    caller: AccountId,
    new_owner: AccountId,
) -> (AccountId, Option<AccountId>, Result<(), Error>) {
    if caller == owner {
        (owner, Some(new_owner), Ok(()))
    } else {
        (owner, pending, Err(Error::Unauthorized))
    }
}

/// Owner and pending owner after an `accept_ownership` call by `caller`,
/// with the call's result.
pub open spec fn accept_ownership_outcome(
    owner: AccountId,
    pending: Option<AccountId>,
    caller: AccountId,
) -> (AccountId, Option<AccountId>, Result<(), Error>) {
    match pending {
        None => (owner, pending, Err(Error::NoPendingTransfer)),
        Some(candidate) => {
            if caller == candidate {
                (candidate, None, Ok(()))
            } else {
                (owner, pending, Err(Error::Unauthorized))
            }
        },
    }
}

/// Law: the two-step owner transfer. After the owner starts a transfer to
/// `candidate`, acceptance by any caller other than `candidate` fails as
/// unauthorized and moves nothing, while acceptance by `candidate` makes
/// `candidate` the owner and clears the pending transfer.
pub proof fn lemma_owner_transfer_two_step(
    owner: AccountId,
    pending: Option<AccountId>,
    candidate: AccountId,
    caller: AccountId,
)
    ensures
        ({
            let started = transfer_ownership_outcome(owner, pending, owner, candidate);
            let accepted = accept_ownership_outcome(started.0, started.1, caller);
            &&& started.2 == Ok::<(), Error>(())
            &&& started.0 == owner
            &&& started.1 == Some(candidate)
            &&& caller != candidate ==> accepted.2 == Err::<(), Error>(Error::Unauthorized)
                && accepted.0 == owner && accepted.1 == Some(candidate)
            &&& caller == candidate ==> accepted.2 == Ok::<(), Error>(()) && accepted.0
                == candidate && accepted.1 is None
        }),
{
}

impl MessageTransmitter {
    /// Begins the two-step ownership transfer: only the owner may start one,
    /// and it has no effect on `owner` until the candidate accepts.
    pub fn transfer_ownership(
        &mut self,
        caller: AccountId,
        new_owner: AccountId,
        log: &mut Vec<Event>,
    ) -> (r: Result<(), Error>)
        ensures
            (final(self).owner, final(self).pending_owner, r) == transfer_ownership_outcome(
                old(self).owner,
                old(self).pending_owner,
                caller,
                new_owner,
            ),
            r is Ok <==> caller == old(self).owner,
            r is Err ==> r == Err::<(), Error>(Error::Unauthorized) && *final(self) == *old(self)
                && final(log)@ == old(log)@,
            r is Ok ==> {
                &&& final(self).pending_owner == Some(new_owner)
                &&& final(self).owner == old(self).owner
                &&& final(self).attester_manager == old(self).attester_manager
                &&& final(self).pauser == old(self).pauser
                &&& final(self).paused == old(self).paused
                &&& same_attester_registry(*old(self), *final(self))
                &&& same_config(*old(self), *final(self))
                &&& final(log)@ == old(log)@.push(Event::OwnershipTransferStarted(
                    OwnershipTransferStarted {
                        previous_owner: old(self).owner,
                        new_owner,
                    },
                ))
            },
    {
        if caller != self.owner {
            return Err(Error::Unauthorized);
        }
        self.pending_owner = Some(new_owner);
        log.push(Event::OwnershipTransferStarted(OwnershipTransferStarted {
            previous_owner: self.owner,
            new_owner,
        }));
        Ok(())
    }

    /// Completes the two-step ownership transfer: only the outstanding
    /// candidate may accept, which moves `owner` and clears the candidate.
    pub fn accept_ownership(&mut self, caller: AccountId, log: &mut Vec<Event>) -> (r: Result<
        (),
        Error,
    >)
        ensures
            (final(self).owner, final(self).pending_owner, r) == accept_ownership_outcome(
                old(self).owner,
                old(self).pending_owner,
                caller,
            ),
            r is Ok <==> (old(self).pending_owner is Some && old(self).pending_owner == Some(
                caller,
            )),
            old(self).pending_owner is None ==> r == Err::<(), Error>(Error::NoPendingTransfer),
            old(self).pending_owner is Some && old(self).pending_owner != Some(caller) ==> r == Err::<(), Error>(
                Error::Unauthorized,
            ),
            r is Err ==> *final(self) == *old(self) && final(log)@ == old(log)@,
            r is Ok ==> {
                &&& final(self).owner == caller
                &&& final(self).pending_owner is None
                &&& final(self).attester_manager == old(self).attester_manager
                &&& final(self).pauser == old(self).pauser
                &&& final(self).paused == old(self).paused
                &&& same_attester_registry(*old(self), *final(self))
                &&& same_config(*old(self), *final(self))
                &&& final(log)@ == old(log)@.push(Event::OwnershipTransferred(
                    OwnershipTransferred {
                        previous_owner: old(self).owner,
                        new_owner: caller,
                    },
                ))
            },
    {
        match self.pending_owner {
            None => Err(Error::NoPendingTransfer),
            Some(candidate) => {
                if caller != candidate {
                    return Err(Error::Unauthorized);
                }
                let previous_owner = self.owner;
                self.owner = candidate;
                self.pending_owner = None;
                log.push(Event::OwnershipTransferred(OwnershipTransferred {
                    previous_owner,
                    new_owner: candidate,
                }));
                Ok(())
            },
        }
    }

    /// Hands the attester-manager role over in one step; only the current
    /// holder may do so.
    pub fn update_attester_manager(
        &mut self,
        caller: AccountId,
        new_attester_manager: AccountId,
        log: &mut Vec<Event>,
    ) -> (r: Result<(), Error>)
        ensures
            r is Ok <==> caller == old(self).attester_manager,
            r is Err ==> r == Err::<(), Error>(Error::Unauthorized) && *final(self) == *old(self)
                && final(log)@ == old(log)@,
            r is Ok ==> {
                &&& final(self).attester_manager == new_attester_manager
                &&& final(self).owner == old(self).owner
                &&& final(self).pending_owner == old(self).pending_owner
                &&& final(self).pauser == old(self).pauser
                &&& final(self).paused == old(self).paused
                &&& same_attester_registry(*old(self), *final(self))
                &&& same_config(*old(self), *final(self))
                &&& final(log)@ == old(log)@.push(Event::AttesterManagerUpdated(
                    AttesterManagerUpdated {
                        previous_attester_manager: Some(old(self).attester_manager),
                        new_attester_manager,
                    },
                ))
            },
    {
        if caller != self.attester_manager {
            return Err(Error::Unauthorized);
        }
        let previous_attester_manager = self.attester_manager;
        self.attester_manager = new_attester_manager;
        log.push(Event::AttesterManagerUpdated(AttesterManagerUpdated {
            previous_attester_manager: Some(previous_attester_manager),
            new_attester_manager,
        }));
        Ok(())
    }

    /// Hands the pauser role over in one step; only the current holder may
    /// do so.
    pub fn update_pauser(
        &mut self,
        caller: AccountId,
        new_pauser: AccountId,
        log: &mut Vec<Event>,
    ) -> (r: Result<(), Error>)
        ensures
            r is Ok <==> caller == old(self).pauser,
            r is Err ==> r == Err::<(), Error>(Error::Unauthorized) && *final(self) == *old(self)
                && final(log)@ == old(log)@,
            r is Ok ==> {
                &&& final(self).pauser == new_pauser
                &&& final(self).owner == old(self).owner
                &&& final(self).pending_owner == old(self).pending_owner
                &&& final(self).attester_manager == old(self).attester_manager
                &&& final(self).paused == old(self).paused
                &&& same_attester_registry(*old(self), *final(self))
                &&& same_config(*old(self), *final(self))
                &&& final(log)@ == old(log)@.push(Event::PauserUpdated(PauserUpdated {
                    previous_pauser: old(self).pauser,
                    new_pauser,
                }))
            },
    {
        if caller != self.pauser {
            return Err(Error::Unauthorized);
        }
        let previous_pauser = self.pauser;
        self.pauser = new_pauser;
        log.push(Event::PauserUpdated(PauserUpdated { previous_pauser, new_pauser }));
        Ok(())
    }

    /// Engages the pause gate. Pausing while already paused is allowed and
    /// simply re-emits the event: the safety lever is never itself blocked.
    pub fn pause(&mut self, caller: AccountId, log: &mut Vec<Event>) -> (r: Result<(), Error>)
        ensures
            r is Ok <==> caller == old(self).pauser,
            r is Err ==> r == Err::<(), Error>(Error::Unauthorized) && *final(self) == *old(self)
                && final(log)@ == old(log)@,
            r is Ok ==> {
                &&& final(self).paused
                &&& same_roles(*old(self), *final(self))
                &&& same_attester_registry(*old(self), *final(self))
                &&& same_config(*old(self), *final(self))
                &&& final(log)@ == old(log)@.push(Event::Paused(Paused {}))
            },
    {
        if caller != self.pauser {
            return Err(Error::Unauthorized);
        }
        self.paused = true;
        log.push(Event::Paused(Paused {}));
        Ok(())
    }

    /// Releases the pause gate, restoring transfer operations.
    pub fn unpause(&mut self, caller: AccountId, log: &mut Vec<Event>) -> (r: Result<(), Error>)
        ensures
            r is Ok <==> caller == old(self).pauser,
            r is Err ==> r == Err::<(), Error>(Error::Unauthorized) && *final(self) == *old(self)
                && final(log)@ == old(log)@,
            r is Ok ==> {
                &&& !final(self).paused
                &&& same_roles(*old(self), *final(self))
                &&& same_attester_registry(*old(self), *final(self))
                &&& same_config(*old(self), *final(self))
                &&& final(log)@ == old(log)@.push(Event::Unpaused(Unpaused {}))
            },
    {
        if caller != self.pauser {
            return Err(Error::Unauthorized);
        }
        self.paused = false;
        log.push(Event::Unpaused(Unpaused {}));
        Ok(())
    }
}

} // verus!
