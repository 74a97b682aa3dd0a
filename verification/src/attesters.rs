//! The attester registry: enabling and disabling attesters and moving the
//! signature threshold, each gated by the attester manager and each leaving
//! the registry invariant intact on its own, with no combined transaction.

use vstd::prelude::*;
use crate::account::AccountId;
use crate::errors::Error;
use crate::events::AttesterDisabled;
use crate::events::AttesterEnabled;
use crate::events::Event;
use crate::events::SignatureThresholdUpdated;
use crate::state::MessageTransmitter;
use crate::state::contains_account;
use crate::state::registry_wf;
use crate::state::same_config;
use crate::state::same_roles;

verus! {

/// One attester-registry operation, as submitted by `caller`.
#[derive(Clone, Copy, Debug, PartialEq, Eq, Structural)]
pub enum AttesterOp {
    Enable { caller: AccountId, attester: AccountId },
    Disable { caller: AccountId, attester: AccountId },
    SetThreshold { caller: AccountId, threshold: u32 },
}

/// The registry after one operation: the new attester sequence and threshold
/// on success, the registry unchanged on any failure.
pub open spec fn attester_step(
    attesters: Seq<AccountId>,
    threshold: u32,
    manager: AccountId,
    op: AttesterOp,
) -> (Seq<AccountId>, u32) {
    match op {
        AttesterOp::Enable { caller, attester } => {
            if caller == manager && !attesters.contains(attester) {
                (attesters.push(attester), threshold)
            } else {
                (attesters, threshold)
            }
        },
        AttesterOp::Disable { caller, attester } => {
            if caller == manager && attesters.contains(attester) && (threshold as nat)
                < attesters.len() {
                (attesters.remove(attesters.index_of(attester)), threshold)
            } else {
                (attesters, threshold)
            }
        },
        AttesterOp::SetThreshold { caller, threshold: n } => {
            if caller == manager && 1 <= n && (n as nat) <= attesters.len() {
                (attesters, n)
            } else {
                (attesters, threshold)
            }
        },
    }
}

/// `post` holds exactly the registry that `attester_step` prescribes for
/// `op` applied to `pre`.
pub open spec fn matches_step(
    pre: MessageTransmitter,
    post: MessageTransmitter,
    op: AttesterOp,
) -> bool {
    &&& post.enabled_attesters@ == attester_step(
        pre.enabled_attesters@,
        pre.signature_threshold,
        pre.attester_manager,
        op,
    ).0
    &&& post.signature_threshold == attester_step(
        pre.enabled_attesters@,
        pre.signature_threshold,
        pre.attester_manager,
        op,
    ).1
}

/// One registry operation keeps the registry invariant, whether it succeeds
/// or fails.
pub proof fn lemma_attester_step_preserves_wf(
    attesters: Seq<AccountId>,
    threshold: u32,
    manager: AccountId,
    op: AttesterOp,
)
    requires
        registry_wf(attesters, threshold),
    ensures
        registry_wf(
            attester_step(attesters, threshold, manager, op).0,
            attester_step(attesters, threshold, manager, op).1,
        ),
{
    match op {
        AttesterOp::Enable { caller, attester } => {
            if caller == manager && !attesters.contains(attester) {
                let post = attesters.push(attester);
                assert forall|i: int, j: int| 0 <= i < j < post.len() implies post[i] != post[j] by {
                    if j == attesters.len() as int {
                        assert(post[j] == attester);
                        assert(post[i] == attesters[i]);
                        assert(attesters.contains(attester) ==> exists|k: int|
                            0 <= k < attesters.len() && attesters[k] == attester);
                        assert(attesters[i] != attester);
                    }
                }
            }
        },
        AttesterOp::Disable { caller, attester } => {
            if caller == manager && attesters.contains(attester) && (threshold as nat)
                < attesters.len() {
                let i = attesters.index_of(attester);
                assert(0 <= i < attesters.len());
                attesters.remove_ensures(i);
                let post = attesters.remove(i);
                assert forall|p: int, q: int| 0 <= p < q < post.len() implies post[p] != post[q] by {
                    let p0: int = if p < i { p } else { p + 1 };
                    let q0: int = if q < i { q } else { q + 1 };
                    assert(post[p] == attesters[p0]);
                    assert(post[q] == attesters[q0]);
                }
            }
        },
        AttesterOp::SetThreshold { .. } => {},
    }
}

/// The registry after a whole run of operations, applied in order.
pub open spec fn apply_attester_ops(
    attesters: Seq<AccountId>,
    threshold: u32,
    manager: AccountId,
    ops: Seq<AttesterOp>,
) -> (Seq<AccountId>, u32)
    decreases ops.len(),
{
    if ops.len() == 0 {
        (attesters, threshold)
    } else {
        let stepped = attester_step(attesters, threshold, manager, ops[0]);
        apply_attester_ops(stepped.0, stepped.1, manager, ops.drop_first())
    }
}

/// Every run of attester-registry operations, started from a registry
/// satisfying the invariant, ends in a registry satisfying the invariant.
pub proof fn lemma_attester_ops_preserve_wf(
    attesters: Seq<AccountId>,
    threshold: u32,
    manager: AccountId,
    ops: Seq<AttesterOp>,
)
    requires
        registry_wf(attesters, threshold),
    ensures
        registry_wf(
            apply_attester_ops(attesters, threshold, manager, ops).0,
            apply_attester_ops(attesters, threshold, manager, ops).1,
        ),
    decreases ops.len(),
{
    if ops.len() > 0 {
        lemma_attester_step_preserves_wf(attesters, threshold, manager, ops[0]);
        let stepped = attester_step(attesters, threshold, manager, ops[0]);
        lemma_attester_ops_preserve_wf(stepped.0, stepped.1, manager, ops.drop_first());
    }
}

/// Law: over every run of attester-registry operations, valid or refused,
/// the registry invariant holds after each operation: at every point of the
/// run the threshold is between one and the number of enabled attesters, and
/// the enabled attesters hold no duplicates.
pub proof fn lemma_attester_ops_wf_at_each_step(
    attesters: Seq<AccountId>,
    threshold: u32,
    manager: AccountId,
    ops: Seq<AttesterOp>,
)
    requires
        registry_wf(attesters, threshold),
    ensures
        forall|i: int|
            0 <= i <= ops.len() ==> registry_wf(
                apply_attester_ops(attesters, threshold, manager, #[trigger] ops.take(i)).0,
                apply_attester_ops(attesters, threshold, manager, ops.take(i)).1,
            ),
{
    assert forall|i: int| 0 <= i <= ops.len() implies registry_wf(
        apply_attester_ops(attesters, threshold, manager, #[trigger] ops.take(i)).0,
        apply_attester_ops(attesters, threshold, manager, ops.take(i)).1,
    ) by {
        lemma_attester_ops_preserve_wf(attesters, threshold, manager, ops.take(i));
    }
}

impl MessageTransmitter {
    /// Enables an attester: manager-gated, refuses a duplicate, appends to
    /// the enabled sequence, and re-validates the invariant last, before
    /// anything is persisted.
    pub fn enable_attester(
        &mut self,
        caller: AccountId,
        new_attester: AccountId,
        log: &mut Vec<Event>,
    ) -> (r: Result<(), Error>)
        requires
            old(self).well_formed(),
        ensures
            final(self).well_formed(),
            matches_step(
                *old(self),
                *final(self),
                (AttesterOp::Enable { caller, attester: new_attester }),
            ),
            r is Ok <==> (caller == old(self).attester_manager && !old(
                self,
            ).enabled_attesters@.contains(new_attester)),
            caller != old(self).attester_manager ==> r == Err::<(), Error>(Error::Unauthorized),
            caller == old(self).attester_manager && old(self).enabled_attesters@.contains(
                new_attester,
            ) ==> r == Err::<(), Error>(Error::DuplicateAttester),
            r is Err ==> *final(self) == *old(self) && final(log)@ == old(log)@,
            r is Ok ==> {
                &&& final(self).enabled_attesters@ == old(self).enabled_attesters@.push(
                    new_attester,
                )
                &&& final(self).signature_threshold == old(self).signature_threshold
                &&& same_roles(*old(self), *final(self))
                &&& same_config(*old(self), *final(self))
                &&& final(self).paused == old(self).paused
                &&& final(log)@ == old(log)@.push(Event::AttesterEnabled(AttesterEnabled {
                    attester: new_attester,
                }))
            },
    {
        if caller != self.attester_manager {
            return Err(Error::Unauthorized);
        }
        if contains_account(&self.enabled_attesters, new_attester) {
            return Err(Error::DuplicateAttester);
        }
        self.enabled_attesters.push(new_attester);
        proof {
            lemma_attester_step_preserves_wf(
                old(self).enabled_attesters@,
                old(self).signature_threshold,
                old(self).attester_manager,
                AttesterOp::Enable { caller, attester: new_attester },
            );
        }
        if !self.validate() {
            return Err(Error::InvalidMessageTransmitterState);
        }
        log.push(Event::AttesterEnabled(AttesterEnabled { attester: new_attester }));
        Ok(())
    }

    /// Disables an attester: manager-gated, refuses an absent attester, and
    /// refuses a removal that would leave the threshold unsatisfiable. The
    /// remaining attesters keep their order.
    pub fn disable_attester(
        &mut self,
        caller: AccountId,
        attester: AccountId,
        log: &mut Vec<Event>,
    ) -> (r: Result<(), Error>)
        requires
            old(self).well_formed(),
        ensures
            final(self).well_formed(),
            matches_step(*old(self), *final(self), (AttesterOp::Disable { caller, attester })),
            r is Ok <==> (caller == old(self).attester_manager && old(
                self,
            ).enabled_attesters@.contains(attester) && (old(self).signature_threshold as nat) < old(
                self,
            ).enabled_attesters@.len()),
            caller != old(self).attester_manager ==> r == Err::<(), Error>(Error::Unauthorized),
            caller == old(self).attester_manager && !old(self).enabled_attesters@.contains(attester)
                ==> r == Err::<(), Error>(Error::AttesterNotFound),
            caller == old(self).attester_manager && old(self).enabled_attesters@.contains(attester)
                && (old(self).signature_threshold as nat) >= old(self).enabled_attesters@.len()
                ==> r == Err::<(), Error>(Error::ThresholdViolation),
            r is Err ==> *final(self) == *old(self) && final(log)@ == old(log)@,
            r is Ok ==> {
                &&& final(self).enabled_attesters@ == old(self).enabled_attesters@.remove(
                    old(self).enabled_attesters@.index_of(attester),
                )
                &&& final(self).enabled_attesters@.len() == old(self).enabled_attesters@.len() - 1
                &&& !final(self).enabled_attesters@.contains(attester)
                &&& final(self).signature_threshold == old(self).signature_threshold
                &&& same_roles(*old(self), *final(self))
                &&& same_config(*old(self), *final(self))
                &&& final(self).paused == old(self).paused
                &&& final(log)@ == old(log)@.push(Event::AttesterDisabled(AttesterDisabled {
                    attester,
                }))
            },
    {
        if caller != self.attester_manager {
            return Err(Error::Unauthorized);
        }
        let mut position: usize = 0;
        let mut found: bool = false;
        let n = self.enabled_attesters.len();
        let mut k: usize = 0;
        while k < n
            invariant
                n == self.enabled_attesters@.len(),
                k <= n,
                !found ==> forall|t: int| 0 <= t < k ==> self.enabled_attesters@[t] != attester,
                found ==> position < n && self.enabled_attesters@[position as int] == attester,
            decreases n - k,
        {
            if !found && self.enabled_attesters[k] == attester {
                found = true;
                position = k;
            }
            k += 1;
        }
        if !found {
            assert(!self.enabled_attesters@.contains(attester)) by {
                if self.enabled_attesters@.contains(attester) {
                    let w = choose|t: int|
                        0 <= t < self.enabled_attesters@.len() && self.enabled_attesters@[t]
                            == attester;
                    assert(self.enabled_attesters@[w] != attester);
                }
            }
            return Err(Error::AttesterNotFound);
        }
        assert(self.enabled_attesters@.contains(attester));
        if self.signature_threshold as usize >= self.enabled_attesters.len() {
            return Err(Error::ThresholdViolation);
        }
        proof {
            let s = self.enabled_attesters@;
            let i = s.index_of(attester);
            assert(0 <= i < s.len() && s[i] == attester);
            assert(i == position as int);
            s.remove_ensures(i);
            lemma_attester_step_preserves_wf(
                old(self).enabled_attesters@,
                old(self).signature_threshold,
                old(self).attester_manager,
                AttesterOp::Disable { caller, attester },
            );
        }
        self.enabled_attesters.remove(position);
        assert(!self.enabled_attesters@.contains(attester)) by {
            let s = old(self).enabled_attesters@;
            let i = s.index_of(attester);
            s.remove_ensures(i);
            if self.enabled_attesters@.contains(attester) {
                let w = choose|t: int|
                    0 <= t < self.enabled_attesters@.len() && self.enabled_attesters@[t]
                        == attester;
                if w < i {
                    assert(s[w] == attester);
                } else {
                    assert(s[w + 1] == attester);
                }
            }
        }
        log.push(Event::AttesterDisabled(AttesterDisabled { attester }));
        Ok(())
    }

    /// Moves the signature threshold: manager-gated, refuses zero and any
    /// value the enabled attesters cannot satisfy.
    pub fn set_signature_threshold(
        &mut self,
        caller: AccountId,
        new_threshold: u32,
        log: &mut Vec<Event>,
    ) -> (r: Result<(), Error>)
        requires
            old(self).well_formed(),
        ensures
            final(self).well_formed(),
            matches_step(
                *old(self),
                *final(self),
                (AttesterOp::SetThreshold { caller, threshold: new_threshold }),
            ),
            r is Ok <==> (caller == old(self).attester_manager && 1 <= new_threshold && (
            new_threshold as nat) <= old(self).enabled_attesters@.len()),
            caller != old(self).attester_manager ==> r == Err::<(), Error>(Error::Unauthorized),
            caller == old(self).attester_manager && (new_threshold == 0 || (new_threshold as nat)
                > old(self).enabled_attesters@.len()) ==> r == Err::<(), Error>(
                Error::InvalidThreshold,
            ),
            r is Err ==> *final(self) == *old(self) && final(log)@ == old(log)@,
            r is Ok ==> {
                &&& final(self).signature_threshold == new_threshold
                &&& final(self).enabled_attesters@ == old(self).enabled_attesters@
                &&& same_roles(*old(self), *final(self))
                &&& same_config(*old(self), *final(self))
                &&& final(self).paused == old(self).paused
                &&& final(log)@ == old(log)@.push(Event::SignatureThresholdUpdated(
                    SignatureThresholdUpdated { new_signature_threshold: new_threshold },
                ))
            },
    {
        if caller != self.attester_manager {
            return Err(Error::Unauthorized);
        }
        if new_threshold == 0 || new_threshold as usize > self.enabled_attesters.len() {
            return Err(Error::InvalidThreshold);
        }
        self.signature_threshold = new_threshold;
        log.push(Event::SignatureThresholdUpdated(SignatureThresholdUpdated {
            new_signature_threshold: new_threshold,
        }));
        Ok(())
    }
}

} // verus!
