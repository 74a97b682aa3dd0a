//! Transfer accounting: deposit-for-burn on the source domain and
//! mint-and-withdraw on the destination domain. Both consult the pause gate,
//! the denylist, and the domain-route registry before reporting anything,
//! and abort with no partial event on any failure.

use vstd::prelude::*;
use crate::account::AccountId;
use crate::denylist::Denylist;
use crate::errors::Error;
use crate::events::DepositForBurn;
use crate::events::Event;
use crate::events::MintAndWithdraw;
use crate::fees::FeePolicy;
use crate::routes::RemoteRouter;
use crate::state::MessageTransmitter;

verus! {

/// Parameters of a deposit-for-burn, as supplied by the depositor.
#[derive(Clone, Debug, PartialEq, Eq)]
pub struct DepositForBurnParams {
    pub burn_token: AccountId,
    pub amount: u64,
    pub depositor: AccountId,
    pub mint_recipient: AccountId,
    pub destination_domain: u32,
    pub destination_caller: AccountId,
    pub max_fee: u64,
    pub min_finality_threshold: u32,
    pub hook_data: Vec<u8>,
}

/// The deposit-for-burn event that a successful call with these inputs
/// reports: the route for the destination domain fills in the destination
/// module.
pub open spec fn deposit_event(params: DepositForBurnParams, destination: AccountId) -> Event {
    Event::DepositForBurn(
        DepositForBurn {
            burn_token: params.burn_token,
            amount: params.amount,
            depositor: params.depositor,
            mint_recipient: params.mint_recipient,
            destination_domain: params.destination_domain,
            destination_token_messenger: destination,
            destination_caller: params.destination_caller,
            max_fee: params.max_fee,
            min_finality_threshold: params.min_finality_threshold,
            hook_data: params.hook_data,
        },
    )
}

/// Records a deposit-for-burn: refused while paused, for a denylisted
/// depositor or mint recipient, and for a destination domain with no route.
/// On success, exactly one `DepositForBurn` event is appended; on failure,
/// none.
pub fn deposit_for_burn(
    gov: &MessageTransmitter,
    router: &RemoteRouter,
    denylist: &Denylist,
    params: DepositForBurnParams,
    log: &mut Vec<Event>,
) -> (r: Result<(), Error>)
    requires
        router.well_formed(),
    ensures
        r is Ok <==> (!gov.paused && !denylist.spec_denylisted(params.depositor)
            && !denylist.spec_denylisted(params.mint_recipient) && router.spec_registered(
            params.destination_domain,
        )),
        gov.paused ==> r == Err::<(), Error>(Error::ContractPaused),
        !gov.paused && (denylist.spec_denylisted(params.depositor) || denylist.spec_denylisted(
            params.mint_recipient,
        )) ==> r == Err::<(), Error>(Error::AccountDenylisted),
        !gov.paused && !denylist.spec_denylisted(params.depositor) && !denylist.spec_denylisted(
            params.mint_recipient,
        ) && !router.spec_registered(params.destination_domain) ==> r == Err::<(), Error>(
            Error::UnknownDomain,
        ),
        r is Err ==> final(log)@ == old(log)@,
        r is Ok ==> final(log)@ == old(log)@.push(
            deposit_event(params, router.spec_route(params.destination_domain)->Some_0),
        ),
{
    if gov.paused {
        return Err(Error::ContractPaused);
    }
    if denylist.is_denylisted(params.depositor) {
        return Err(Error::AccountDenylisted);
    }
    if denylist.is_denylisted(params.mint_recipient) {
        return Err(Error::AccountDenylisted);
    }
    let destination_token_messenger = match router.remote_token_messenger(
        params.destination_domain,
    ) {
        None => {
            return Err(Error::UnknownDomain);
        },
        Some(m) => m,
    };
    log.push(Event::DepositForBurn(DepositForBurn {
        burn_token: params.burn_token,
        amount: params.amount,
        depositor: params.depositor,
        mint_recipient: params.mint_recipient,
        destination_domain: params.destination_domain,
        destination_token_messenger,
        destination_caller: params.destination_caller,
        max_fee: params.max_fee,
        min_finality_threshold: params.min_finality_threshold,
        hook_data: params.hook_data,
    }));
    Ok(())
}

/// Records a mint-and-withdraw: refused while paused, for a denylisted mint
/// recipient, and for a source domain with no route. The fee is computed by
/// the caller's fee policy and owes the configured floor; the reported net
/// amount reconciles exactly with the gross amount, the fee going to the
/// fee recipient. On success, exactly one `MintAndWithdraw` event is
/// appended; on failure, none.
pub fn mint_and_withdraw(
    gov: &MessageTransmitter,
    router: &RemoteRouter,
    denylist: &Denylist,
    fees: &FeePolicy,
    source_domain: u32,
    mint_recipient: AccountId,
    mint_token: AccountId,
    amount: u64,
    fee_collected: u64,
    log: &mut Vec<Event>,
) -> (r: Result<(), Error>)
    requires
        router.well_formed(),
        fees.min_fee as u64 <= fee_collected,
        fee_collected <= amount,
    ensures
        r is Ok <==> (!gov.paused && !denylist.spec_denylisted(mint_recipient)
            && router.spec_registered(source_domain)),
        gov.paused ==> r == Err::<(), Error>(Error::ContractPaused),
        !gov.paused && denylist.spec_denylisted(mint_recipient) ==> r == Err::<(), Error>(
            Error::AccountDenylisted,
        ),
        !gov.paused && !denylist.spec_denylisted(mint_recipient) && !router.spec_registered(
            source_domain,
        ) ==> r == Err::<(), Error>(Error::UnknownDomain),
        r is Err ==> final(log)@ == old(log)@,
        r is Ok ==> final(log)@ == old(log)@.push(Event::MintAndWithdraw(MintAndWithdraw {
            mint_recipient,
            amount: (amount - fee_collected) as u64,
            mint_token,
            fee_collected,
        })),
        r is Ok ==> fees.min_fee as u64 <= fee_collected && (amount - fee_collected)
            + fee_collected == amount,
{
    if gov.paused {
        return Err(Error::ContractPaused);
    }
    if denylist.is_denylisted(mint_recipient) {
        return Err(Error::AccountDenylisted);
    }
    if router.remote_token_messenger(source_domain).is_none() {
        return Err(Error::UnknownDomain);
    }
    let net_amount = amount - fee_collected;
    log.push(Event::MintAndWithdraw(MintAndWithdraw {
        mint_recipient,
        amount: net_amount,
        mint_token,
        fee_collected,
    }));
    Ok(())
}

} // verus!
