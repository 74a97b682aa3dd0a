//! Fee policy: a controller-settable minimum-fee floor and the account
//! credited from collected fees on mint. The fee-computation formula itself
//! is the caller's pluggable policy; this module owns only the floor and the
//! recipient.

use vstd::prelude::*;
use crate::account::AccountId;
use crate::errors::Error;
use crate::events::Event;
use crate::events::FeeRecipientSet;
use crate::events::MinFeeControllerSet;
use crate::events::MinFeeSet;
use crate::state::MessageTransmitter;

verus! {

/// The fee policy of one module instance.
pub struct FeePolicy {
    /// Floor on the fee collected by a mint-and-withdraw.
    pub min_fee: u32,
    /// Account credited with collected fees.
    pub fee_recipient: AccountId,
    /// Sole authority over `min_fee`; reassignable only by the owner.
    pub min_fee_controller: AccountId,
}

impl FeePolicy {
    /// Moves the minimum-fee floor: controller-gated, any representable
    /// value is allowed.
    pub fn set_min_fee(
        &mut self,
        caller: AccountId,
        new_min_fee: u32,
        log: &mut Vec<Event>,
    ) -> (r: Result<(), Error>)
        ensures
            r is Ok <==> caller == old(self).min_fee_controller,
            r is Err ==> r == Err::<(), Error>(Error::Unauthorized) && *final(self) == *old(self)
                && final(log)@ == old(log)@,
            r is Ok ==> {
                &&& final(self).min_fee == new_min_fee
                &&& final(self).fee_recipient == old(self).fee_recipient
                &&& final(self).min_fee_controller == old(self).min_fee_controller
                &&& final(log)@ == old(log)@.push(Event::MinFeeSet(MinFeeSet { new_min_fee }))
            },
    {
        if caller != self.min_fee_controller {
            return Err(Error::Unauthorized);
        }
        self.min_fee = new_min_fee;
        log.push(Event::MinFeeSet(MinFeeSet { new_min_fee }));
        Ok(())
    }

    /// Moves the fee-recipient account: owner-gated.
    pub fn set_fee_recipient(
        &mut self,
        gov: &MessageTransmitter,
        caller: AccountId,
        new_fee_recipient: AccountId,
        log: &mut Vec<Event>,
    ) -> (r: Result<(), Error>)
        ensures
            r is Ok <==> caller == gov.owner,
            r is Err ==> r == Err::<(), Error>(Error::Unauthorized) && *final(self) == *old(self)
                && final(log)@ == old(log)@,
            r is Ok ==> {
                &&& final(self).fee_recipient == new_fee_recipient
                &&& final(self).min_fee == old(self).min_fee
                &&& final(self).min_fee_controller == old(self).min_fee_controller
                &&& final(log)@ == old(log)@.push(Event::FeeRecipientSet(FeeRecipientSet {
                    new_fee_recipient,
                }))
            },
    {
        if caller != gov.owner {
            return Err(Error::Unauthorized);
        }
        self.fee_recipient = new_fee_recipient;
        log.push(Event::FeeRecipientSet(FeeRecipientSet { new_fee_recipient }));
        Ok(())
    }

    /// Moves the min-fee-controller authority: owner-gated.
    pub fn set_min_fee_controller(
        &mut self,
        gov: &MessageTransmitter,
        caller: AccountId,
        new_min_fee_controller: AccountId,
        log: &mut Vec<Event>,
    ) -> (r: Result<(), Error>)
        ensures
            r is Ok <==> caller == gov.owner,
            r is Err ==> r == Err::<(), Error>(Error::Unauthorized) && *final(self) == *old(self)
                && final(log)@ == old(log)@,
            r is Ok ==> {
                &&& final(self).min_fee_controller == new_min_fee_controller
                &&& final(self).min_fee == old(self).min_fee
                &&& final(self).fee_recipient == old(self).fee_recipient
                &&& final(log)@ == old(log)@.push(Event::MinFeeControllerSet(MinFeeControllerSet {
                    new_min_fee_controller,
                }))
            },
    {
        if caller != gov.owner {
            return Err(Error::Unauthorized);
        }
        self.min_fee_controller = new_min_fee_controller;
        log.push(Event::MinFeeControllerSet(MinFeeControllerSet { new_min_fee_controller }));
        Ok(())
    }
}

} // verus!
