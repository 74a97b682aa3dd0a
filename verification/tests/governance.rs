use message_transmitter::account::AccountId;
use message_transmitter::errors::Error;
use message_transmitter::events::AttesterEnabled;
use message_transmitter::events::AttesterManagerUpdated;
use message_transmitter::events::Event;
use message_transmitter::events::OwnershipTransferStarted;
use message_transmitter::events::OwnershipTransferred;
use message_transmitter::events::Paused;
use message_transmitter::events::PauserUpdated;
use message_transmitter::events::Unpaused;
use message_transmitter::state::initialize;
use message_transmitter::state::InitializeParams;
use message_transmitter::state::MessageTransmitter;

fn acct(n: u64) -> AccountId {
    AccountId::from_u64(n)
}

fn params(attester: AccountId) -> InitializeParams {
    InitializeParams { local_domain: 5, attester, max_message_body_size: 8192, version: 1 }
}

fn fresh(authority: AccountId, attester: AccountId) -> (MessageTransmitter, Vec<Event>) {
    let mut slot: Option<MessageTransmitter> = None;
    let mut log: Vec<Event> = Vec::new();
    let r = initialize(&mut slot, &mut log, authority, authority, &params(attester));
    assert!(r.is_ok());
    (slot.unwrap(), log)
}

#[test]
fn initialization_seeds_singleton_registry() {
    let authority = acct(1);
    let attester = acct(2);
    let (mt, log) = fresh(authority, attester);
    assert_eq!(mt.owner, authority);
    assert_eq!(mt.pending_owner, None);
    assert_eq!(mt.attester_manager, authority);
    assert_eq!(mt.pauser, authority);
    assert!(!mt.paused);
    assert_eq!(mt.local_domain, 5);
    assert_eq!(mt.version, 1);
    assert_eq!(mt.signature_threshold, 1);
    assert_eq!(mt.enabled_attesters, vec![attester]);
    assert_eq!(mt.max_message_body_size, 8192);
    assert_eq!(
        log,
        vec![
            Event::AttesterEnabled(AttesterEnabled { attester }),
            Event::AttesterManagerUpdated(AttesterManagerUpdated {
                previous_attester_manager: None,
                new_attester_manager: authority,
            }),
        ]
    );
}

#[test]
fn initialization_requires_upgrade_authority() {
    let mut slot: Option<MessageTransmitter> = None;
    let mut log: Vec<Event> = Vec::new();
    let r = initialize(&mut slot, &mut log, acct(3), acct(1), &params(acct(2)));
    assert_eq!(r, Err(Error::InvalidProgramExecutable));
    assert!(slot.is_none());
    assert!(log.is_empty());
}

#[test]
fn double_initialization_fails() {
    let authority = acct(1);
    let mut slot: Option<MessageTransmitter> = None;
    let mut log: Vec<Event> = Vec::new();
    let r = initialize(&mut slot, &mut log, authority, authority, &params(acct(2)));
    assert!(r.is_ok());
    let r2 = initialize(&mut slot, &mut log, authority, authority, &params(acct(4)));
    assert_eq!(r2, Err(Error::AlreadyInitialized));
    assert_eq!(slot.as_ref().unwrap().enabled_attesters, vec![acct(2)]);
    assert_eq!(log.len(), 2);
}

#[test]
fn owner_transfer_two_step() {
    let owner = acct(1);
    let candidate = acct(9);
    let stranger = acct(8);
    let (mut mt, mut log) = fresh(owner, acct(2));
    let events_before = log.len();

    assert_eq!(mt.transfer_ownership(stranger, candidate, &mut log), Err(Error::Unauthorized));
    assert_eq!(mt.owner, owner);
    assert_eq!(mt.pending_owner, None);

    assert_eq!(mt.transfer_ownership(owner, candidate, &mut log), Ok(()));
    assert_eq!(mt.owner, owner);
    assert_eq!(mt.pending_owner, Some(candidate));
    assert_eq!(
        log.last(),
        Some(&Event::OwnershipTransferStarted(OwnershipTransferStarted {
            previous_owner: owner,
            new_owner: candidate,
        }))
    );

    // acceptance by anyone but the candidate is refused
    assert_eq!(mt.accept_ownership(stranger, &mut log), Err(Error::Unauthorized));
    assert_eq!(mt.accept_ownership(owner, &mut log), Err(Error::Unauthorized));
    assert_eq!(mt.owner, owner);
    assert_eq!(mt.pending_owner, Some(candidate));

    assert_eq!(mt.accept_ownership(candidate, &mut log), Ok(()));
    assert_eq!(mt.owner, candidate);
    assert_eq!(mt.pending_owner, None);
    assert_eq!(
        log.last(),
        Some(&Event::OwnershipTransferred(OwnershipTransferred {
            previous_owner: owner,
            new_owner: candidate,
        }))
    );
    assert_eq!(log.len(), events_before + 2);
}

#[test]
fn accept_without_pending_transfer_fails() {
    let owner = acct(1);
    let (mut mt, mut log) = fresh(owner, acct(2));
    assert_eq!(mt.accept_ownership(owner, &mut log), Err(Error::NoPendingTransfer));
    assert_eq!(mt.owner, owner);
}

#[test]
fn update_attester_manager_is_single_step() {
    let holder = acct(1);
    let new_manager = acct(6);
    let (mut mt, mut log) = fresh(holder, acct(2));
    assert_eq!(mt.update_attester_manager(acct(7), new_manager, &mut log), Err(Error::Unauthorized));
    assert_eq!(mt.update_attester_manager(holder, new_manager, &mut log), Ok(()));
    assert_eq!(mt.attester_manager, new_manager);
    assert_eq!(
        log.last(),
        Some(&Event::AttesterManagerUpdated(AttesterManagerUpdated {
            previous_attester_manager: Some(holder),
            new_attester_manager: new_manager,
        }))
    );
    // the old holder has lost the role immediately
    assert_eq!(mt.update_attester_manager(holder, acct(8), &mut log), Err(Error::Unauthorized));
}

#[test]
fn update_pauser_is_single_step() {
    let holder = acct(1);
    let new_pauser = acct(6);
    let (mut mt, mut log) = fresh(holder, acct(2));
    assert_eq!(mt.update_pauser(acct(7), new_pauser, &mut log), Err(Error::Unauthorized));
    assert_eq!(mt.update_pauser(holder, new_pauser, &mut log), Ok(()));
    assert_eq!(mt.pauser, new_pauser);
    assert_eq!(
        log.last(),
        Some(&Event::PauserUpdated(PauserUpdated {
            previous_pauser: holder,
            new_pauser,
        }))
    );
}

#[test]
fn pause_and_unpause_are_pauser_gated() {
    let pauser = acct(1);
    let (mut mt, mut log) = fresh(pauser, acct(2));
    assert_eq!(mt.pause(acct(5), &mut log), Err(Error::Unauthorized));
    assert!(!mt.paused);
    assert_eq!(mt.pause(pauser, &mut log), Ok(()));
    assert!(mt.paused);
    assert_eq!(log.last(), Some(&Event::Paused(Paused {})));
    // pausing while paused is allowed and re-emits the event
    let events_before = log.len();
    assert_eq!(mt.pause(pauser, &mut log), Ok(()));
    assert!(mt.paused);
    assert_eq!(log.len(), events_before + 1);
    assert_eq!(mt.unpause(pauser, &mut log), Ok(()));
    assert!(!mt.paused);
    assert_eq!(log.last(), Some(&Event::Unpaused(Unpaused {})));
}

#[test]
fn validate_reports_the_invariant() {
    let (mut mt, _log) = fresh(acct(1), acct(2));
    assert!(mt.validate());
    mt.signature_threshold = 0;
    assert!(!mt.validate());
    mt.signature_threshold = 2;
    assert!(!mt.validate());
    mt.signature_threshold = 1;
    mt.enabled_attesters.push(acct(2));
    assert!(!mt.validate());
}
