use message_transmitter::account::AccountId;
use message_transmitter::errors::Error;
use message_transmitter::events::AttesterDisabled;
use message_transmitter::events::AttesterEnabled;
use message_transmitter::events::Event;
use message_transmitter::events::SignatureThresholdUpdated;
use message_transmitter::state::initialize;
use message_transmitter::state::InitializeParams;
use message_transmitter::state::MessageTransmitter;

fn acct(n: u64) -> AccountId {
    AccountId::from_u64(n)
}

fn fresh(manager: AccountId, attester: AccountId) -> (MessageTransmitter, Vec<Event>) {
    let mut slot: Option<MessageTransmitter> = None;
    let mut log: Vec<Event> = Vec::new();
    let p = InitializeParams {
        local_domain: 0,
        attester,
        max_message_body_size: 1024,
        version: 0,
    };
    let r = initialize(&mut slot, &mut log, manager, manager, &p);
    assert!(r.is_ok());
    (slot.unwrap(), log)
}

fn invariant_holds(mt: &MessageTransmitter) -> bool {
    mt.validate()
}

#[test]
fn enable_appends_in_order() {
    let manager = acct(1);
    let (mut mt, mut log) = fresh(manager, acct(2));
    assert_eq!(mt.enable_attester(manager, acct(3), &mut log), Ok(()));
    assert_eq!(mt.enable_attester(manager, acct(4), &mut log), Ok(()));
    assert_eq!(mt.enabled_attesters, vec![acct(2), acct(3), acct(4)]);
    assert_eq!(
        log.last(),
        Some(&Event::AttesterEnabled(AttesterEnabled { attester: acct(4) }))
    );
    assert!(invariant_holds(&mt));
}

#[test]
fn enable_refuses_duplicates() {
    let manager = acct(1);
    let (mut mt, mut log) = fresh(manager, acct(2));
    let events_before = log.len();
    assert_eq!(mt.enable_attester(manager, acct(2), &mut log), Err(Error::DuplicateAttester));
    assert_eq!(mt.enabled_attesters, vec![acct(2)]);
    assert_eq!(log.len(), events_before);
}

#[test]
fn enable_is_manager_gated() {
    let manager = acct(1);
    let (mut mt, mut log) = fresh(manager, acct(2));
    assert_eq!(mt.enable_attester(acct(9), acct(3), &mut log), Err(Error::Unauthorized));
    assert_eq!(mt.enabled_attesters, vec![acct(2)]);
}

#[test]
fn disable_sole_attester_fails_with_threshold_violation() {
    let manager = acct(1);
    let (mut mt, mut log) = fresh(manager, acct(2));
    let events_before = log.len();
    assert_eq!(mt.signature_threshold, 1);
    assert_eq!(mt.disable_attester(manager, acct(2), &mut log), Err(Error::ThresholdViolation));
    // state unchanged
    assert_eq!(mt.enabled_attesters, vec![acct(2)]);
    assert_eq!(mt.signature_threshold, 1);
    assert_eq!(log.len(), events_before);
    assert!(invariant_holds(&mt));
}

#[test]
fn disable_keeps_order_of_the_rest() {
    let manager = acct(1);
    let (mut mt, mut log) = fresh(manager, acct(2));
    assert_eq!(mt.enable_attester(manager, acct(3), &mut log), Ok(()));
    assert_eq!(mt.enable_attester(manager, acct(4), &mut log), Ok(()));
    assert_eq!(mt.disable_attester(manager, acct(3), &mut log), Ok(()));
    assert_eq!(mt.enabled_attesters, vec![acct(2), acct(4)]);
    assert_eq!(
        log.last(),
        Some(&Event::AttesterDisabled(AttesterDisabled { attester: acct(3) }))
    );
    assert!(invariant_holds(&mt));
}

#[test]
fn disable_unknown_attester_fails() {
    let manager = acct(1);
    let (mut mt, mut log) = fresh(manager, acct(2));
    assert_eq!(mt.disable_attester(manager, acct(9), &mut log), Err(Error::AttesterNotFound));
}

#[test]
fn disable_is_manager_gated() {
    let manager = acct(1);
    let (mut mt, mut log) = fresh(manager, acct(2));
    assert_eq!(mt.disable_attester(acct(9), acct(2), &mut log), Err(Error::Unauthorized));
}

#[test]
fn threshold_must_be_satisfiable() {
    let manager = acct(1);
    let (mut mt, mut log) = fresh(manager, acct(2));
    assert_eq!(mt.set_signature_threshold(manager, 0, &mut log), Err(Error::InvalidThreshold));
    assert_eq!(mt.set_signature_threshold(manager, 2, &mut log), Err(Error::InvalidThreshold));
    assert_eq!(mt.signature_threshold, 1);
    assert_eq!(mt.enable_attester(manager, acct(3), &mut log), Ok(()));
    assert_eq!(mt.set_signature_threshold(manager, 2, &mut log), Ok(()));
    assert_eq!(mt.signature_threshold, 2);
    assert_eq!(
        log.last(),
        Some(&Event::SignatureThresholdUpdated(SignatureThresholdUpdated {
            new_signature_threshold: 2,
        }))
    );
    assert!(invariant_holds(&mt));
}

#[test]
fn threshold_is_manager_gated() {
    let manager = acct(1);
    let (mut mt, mut log) = fresh(manager, acct(2));
    assert_eq!(mt.set_signature_threshold(acct(9), 1, &mut log), Err(Error::Unauthorized));
}

#[test]
fn invariant_holds_after_each_operation_of_a_run() {
    let manager = acct(1);
    let (mut mt, mut log) = fresh(manager, acct(2));
    assert!(invariant_holds(&mt));
    let _ = mt.enable_attester(manager, acct(3), &mut log);
    assert!(invariant_holds(&mt));
    let _ = mt.enable_attester(manager, acct(4), &mut log);
    assert!(invariant_holds(&mt));
    let _ = mt.set_signature_threshold(manager, 3, &mut log);
    assert!(invariant_holds(&mt));
    let _ = mt.disable_attester(manager, acct(2), &mut log);
    assert!(invariant_holds(&mt));
    let _ = mt.set_signature_threshold(manager, 0, &mut log);
    assert!(invariant_holds(&mt));
    let _ = mt.set_signature_threshold(manager, 2, &mut log);
    assert!(invariant_holds(&mt));
    let _ = mt.disable_attester(manager, acct(3), &mut log);
    assert!(invariant_holds(&mt));
    // registry ended where the successful operations left it: the disable of
    // the second attester and the zero threshold were refused on the way
    assert_eq!(mt.enabled_attesters, vec![acct(2), acct(4)]);
    assert_eq!(mt.signature_threshold, 2);
}
