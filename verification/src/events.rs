//! Events: append-only, externally observable records of every successful
//! operation. Each carries only plain values, never references into state.
//! Field names and presence are part of the compatibility contract consumed
//! by off-chain indexers and relayers.

use vstd::prelude::*;
use crate::account::AccountId;

verus! {

/// An owner began a two-step ownership transfer.
#[derive(Clone, Copy, Debug, PartialEq, Eq)]
pub struct OwnershipTransferStarted {
    pub previous_owner: AccountId,
    pub new_owner: AccountId,
}

/// A pending owner accepted the transfer; ownership has moved.
#[derive(Clone, Copy, Debug, PartialEq, Eq)]
pub struct OwnershipTransferred {
    pub previous_owner: AccountId,
    pub new_owner: AccountId,
}

/// An attester was added to the enabled set.
#[derive(Clone, Copy, Debug, PartialEq, Eq)]
pub struct AttesterEnabled {
    pub attester: AccountId,
}

/// An attester was removed from the enabled set.
#[derive(Clone, Copy, Debug, PartialEq, Eq)]
pub struct AttesterDisabled {
    pub attester: AccountId,
}

/// The signature threshold changed.
#[derive(Clone, Copy, Debug, PartialEq, Eq)]
pub struct SignatureThresholdUpdated {
    pub new_signature_threshold: u32,
}

/// The attester-manager role moved. `previous_attester_manager` is `None`
/// only for the assignment made at initialization.
#[derive(Clone, Copy, Debug, PartialEq, Eq)]
pub struct AttesterManagerUpdated {
    pub previous_attester_manager: Option<AccountId>,
    pub new_attester_manager: AccountId,
}

/// The pauser role moved.
#[derive(Clone, Copy, Debug, PartialEq, Eq)]
pub struct PauserUpdated {
    pub previous_pauser: AccountId,
    pub new_pauser: AccountId,
}

/// The module was paused.
#[derive(Clone, Copy, Debug, PartialEq, Eq)]
pub struct Paused {}

/// The module was unpaused.
#[derive(Clone, Copy, Debug, PartialEq, Eq)]
pub struct Unpaused {}

/// A route to a counterpart module on a remote domain was registered.
#[derive(Clone, Copy, Debug, PartialEq, Eq)]
pub struct RemoteTokenMessengerAdded {
    pub domain: u32,
    pub token_messenger: AccountId,
}

/// A route was removed; `token_messenger` is the value that was removed.
#[derive(Clone, Copy, Debug, PartialEq, Eq)]
pub struct RemoteTokenMessengerRemoved {
    pub domain: u32,
    pub token_messenger: AccountId,
}

/// The denylister authority moved.
#[derive(Clone, Copy, Debug, PartialEq, Eq)]
pub struct DenylisterChanged {
    pub old_denylister: AccountId,
    pub new_denylister: AccountId,
}

/// An account was denylisted (re-denylisting re-emits this event).
#[derive(Clone, Copy, Debug, PartialEq, Eq)]
pub struct Denylisted {
    pub account: AccountId,
}

/// An account was removed from the denylist (idempotent, always emitted).
#[derive(Clone, Copy, Debug, PartialEq, Eq)]
pub struct UnDenylisted {
    pub account: AccountId,
}

/// The fee-recipient account changed.
#[derive(Clone, Copy, Debug, PartialEq, Eq)]
pub struct FeeRecipientSet {
    pub new_fee_recipient: AccountId,
}

/// The min-fee-controller authority changed.
#[derive(Clone, Copy, Debug, PartialEq, Eq)]
pub struct MinFeeControllerSet {
    pub new_min_fee_controller: AccountId,
}

/// The minimum-fee floor changed.
#[derive(Clone, Copy, Debug, PartialEq, Eq)]
pub struct MinFeeSet {
    pub new_min_fee: u32,
}

/// Tokens were burned on this domain for minting on a destination domain.
#[derive(Clone, Debug, PartialEq, Eq)]
pub struct DepositForBurn {
    pub burn_token: AccountId,
    pub amount: u64,
    pub depositor: AccountId,
    pub mint_recipient: AccountId,
    pub destination_domain: u32,
    pub destination_token_messenger: AccountId,
    pub destination_caller: AccountId,
    pub max_fee: u64,
    pub min_finality_threshold: u32,
    pub hook_data: Vec<u8>,
}

/// Tokens were minted to a recipient, net of the fee credited to the
/// fee recipient. `amount` is the net minted amount.
#[derive(Clone, Copy, Debug, PartialEq, Eq)]
pub struct MintAndWithdraw {
    pub mint_recipient: AccountId,
    pub amount: u64,
    pub mint_token: AccountId,
    pub fee_collected: u64,
}

/// One record of the append-only event log.
#[derive(Clone, Debug, PartialEq, Eq)]
pub enum Event {
    OwnershipTransferStarted(OwnershipTransferStarted),
    OwnershipTransferred(OwnershipTransferred),
    AttesterEnabled(AttesterEnabled),
    AttesterDisabled(AttesterDisabled),
    SignatureThresholdUpdated(SignatureThresholdUpdated),
    AttesterManagerUpdated(AttesterManagerUpdated),
    PauserUpdated(PauserUpdated),
    Paused(Paused),
    Unpaused(Unpaused),
    RemoteTokenMessengerAdded(RemoteTokenMessengerAdded),
    RemoteTokenMessengerRemoved(RemoteTokenMessengerRemoved),
    DenylisterChanged(DenylisterChanged),
    Denylisted(Denylisted),
    UnDenylisted(UnDenylisted),
    FeeRecipientSet(FeeRecipientSet),
    MinFeeControllerSet(MinFeeControllerSet),
    MinFeeSet(MinFeeSet),
    DepositForBurn(DepositForBurn),
    MintAndWithdraw(MintAndWithdraw),
}

} // verus!
