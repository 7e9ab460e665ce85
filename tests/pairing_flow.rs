use sbcli::error::Error;
use sbcli::pairing::{
    is_affirmative, FailReason, Intent, PairingAction, PairingEvent, PairingState, PairingWorkflow,
};

fn drive(events: &[PairingEvent]) -> (PairingWorkflow, Vec<PairingAction>) {
    let mut w = PairingWorkflow::new();
    let mut actions = Vec::new();
    for e in events {
        actions.push(w.advance(*e));
    }
    (w, actions)
}

#[test]
fn rejection_asks_no_write() {
    let (w, actions) = drive(&[
        PairingEvent::Start(Intent::Pair),
        PairingEvent::Connected,
        PairingEvent::PhraseReady,
        PairingEvent::Answered(false),
        PairingEvent::Finalized,
        PairingEvent::Persisted,
    ]);
    assert_eq!(w.state, PairingState::Rejected);
    assert!(w.is_terminal());
    assert_eq!(w.refusal(), Some(Error::PairingRejected));
    assert!(!actions.contains(&PairingAction::Persist));
    assert_eq!(actions[3], PairingAction::Abandon);
}

#[test]
fn confirmed_pairing_writes_once() {
    let (w, actions) = drive(&[
        PairingEvent::Start(Intent::Pair),
        PairingEvent::Connected,
        PairingEvent::PhraseReady,
        PairingEvent::Answered(true),
        PairingEvent::Finalized,
        PairingEvent::Persisted,
    ]);
    assert_eq!(w.state, PairingState::Paired);
    assert_eq!(w.refusal(), None);
    assert_eq!(
        actions,
        vec![
            PairingAction::Connect,
            PairingAction::BeginPairing,
            PairingAction::AskConfirmation,
            PairingAction::ContinueHandshake,
            PairingAction::Persist,
            PairingAction::Nothing,
        ]
    );
    assert_eq!(actions.iter().filter(|a| **a == PairingAction::Persist).count(), 1);
}

#[test]
fn resume_without_trust_is_not_paired() {
    let (w, actions) = drive(&[
        PairingEvent::Start(Intent::Resume),
        PairingEvent::Connected,
        PairingEvent::NotTrusted,
    ]);
    assert_eq!(w.state, PairingState::NotPaired);
    assert_eq!(w.refusal(), Some(Error::NotPaired));
    assert_eq!(actions, vec![PairingAction::Connect, PairingAction::ExchangeKeys, PairingAction::Nothing]);
}

#[test]
fn resume_with_trust_authenticates() {
    let (w, _) = drive(&[PairingEvent::Start(Intent::Resume), PairingEvent::Connected, PairingEvent::Resumed]);
    assert_eq!(w.state, PairingState::Authenticated);
    assert!(w.is_terminal());
}

#[test]
fn failures_by_phase() {
    let (w, _) = drive(&[PairingEvent::Start(Intent::Pair), PairingEvent::ConnectFailed]);
    assert_eq!(w.state, PairingState::Failed(FailReason::Connect));
    let (w, _) = drive(&[PairingEvent::Start(Intent::Resume), PairingEvent::Connected, PairingEvent::ExchangeFailed]);
    assert_eq!(w.state, PairingState::Failed(FailReason::KeyExchange));
    let (w, _) = drive(&[
        PairingEvent::Start(Intent::Pair),
        PairingEvent::Connected,
        PairingEvent::PhraseReady,
        PairingEvent::Answered(true),
        PairingEvent::Finalized,
        PairingEvent::PersistFailed,
    ]);
    assert_eq!(w.state, PairingState::Failed(FailReason::Persist));
    assert_eq!(w.refusal(), None);
}

#[test]
fn events_out_of_place_are_ignored() {
    let (w, actions) = drive(&[PairingEvent::Finalized, PairingEvent::Answered(true)]);
    assert_eq!(w.state, PairingState::Idle);
    assert!(!w.is_terminal());
    assert_eq!(actions, vec![PairingAction::Nothing, PairingAction::Nothing]);
    let (w, _) = drive(&[PairingEvent::Start(Intent::Resume), PairingEvent::Connected, PairingEvent::PhraseReady]);
    assert_eq!(w.state, PairingState::KeyExchanging(Intent::Resume));
}

#[test]
fn only_explicit_yes_confirms() {
    assert!(is_affirmative(Some("y")));
    assert!(is_affirmative(Some("yes")));
    assert!(!is_affirmative(Some("Y")));
    assert!(!is_affirmative(Some("no")));
    assert!(!is_affirmative(Some("")));
    assert!(!is_affirmative(Some("yes ")));
    assert!(!is_affirmative(Some("ye")));
    assert!(!is_affirmative(None));
}
