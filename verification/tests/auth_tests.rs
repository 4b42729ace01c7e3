use happye_bot::auth::{
    acquire_step, slot_event, token_exchange_body, token_from_exchange, AccessToken,
    AuthBootstrapState, BootstrapAction, BootstrapEvent, HappyeBotTokenStorage,
    TwitchOAuthResponse, TwitchTokenStorage,
};
use happye_bot::error::TwitchBotError;

fn sample_token() -> AccessToken {
    AccessToken {
        access_token: "SECRET-REDACTED".to_string(),
        refresh_token: "SECRET-REDACTED".to_string(),
        created_at: 1000,
        expires_at: Some(2000),
    }
}

#[test]
fn persisted_token_short_circuits_without_network_call() {
    let (state, action) = acquire_step(
        AuthBootstrapState::WaitingForCode,
        BootstrapEvent::PersistedTokenFound(sample_token()),
        5000,
    );
    assert!(matches!(state, AuthBootstrapState::Ready(_)));
    match action {
        BootstrapAction::UseToken(t) => assert_eq!(t.created_at, 1000),
        _ => panic!("a persisted token must be used directly, with no network call"),
    }
}

#[test]
fn code_arrival_triggers_exactly_the_exchange() {
    let (state, action) = acquire_step(
        AuthBootstrapState::WaitingForCode,
        BootstrapEvent::CodeArrived("abc".to_string()),
        0,
    );
    assert!(matches!(state, AuthBootstrapState::Exchanging));
    match action {
        BootstrapAction::ExchangeCode(c) => assert_eq!(c, "abc"),
        _ => panic!("expected the exchange action"),
    }
}

#[test]
fn empty_slot_polls_and_shutdown_aborts() {
    let (state, action) =
        acquire_step(AuthBootstrapState::WaitingForCode, BootstrapEvent::SlotEmpty, 0);
    assert!(matches!(state, AuthBootstrapState::WaitingForCode));
    assert!(matches!(action, BootstrapAction::PollAgain));

    let (state, action) =
        acquire_step(AuthBootstrapState::WaitingForCode, BootstrapEvent::ShutdownObserved, 0);
    assert!(matches!(state, AuthBootstrapState::Aborted));
    assert!(matches!(action, BootstrapAction::AbortBootstrap));
}

#[test]
fn successful_exchange_stamps_persists_and_finishes() {
    let resp = TwitchOAuthResponse {
        access_token: "SECRET-REDACTED".to_string(),
        expires_in: 3600,
        refresh_token: "SECRET-REDACTED".to_string(),
    };
    let (state, action) =
        acquire_step(AuthBootstrapState::Exchanging, BootstrapEvent::ExchangeSucceeded(resp), 500);
    match state {
        AuthBootstrapState::Ready(t) => {
            assert_eq!(t.created_at, 500);
            assert_eq!(t.expires_at, Some(4100));
        }
        _ => panic!("expected bootstrap to finish"),
    }
    assert!(matches!(action, BootstrapAction::PersistAndUse(_)));
}

#[test]
fn unparsable_persisted_state_is_fatal() {
    let (state, action) = acquire_step(
        AuthBootstrapState::WaitingForCode,
        BootstrapEvent::PersistedTokenUnparsable,
        0,
    );
    assert!(matches!(state, AuthBootstrapState::Failed));
    assert!(matches!(action, BootstrapAction::FailValidation));
}

#[test]
fn failed_exchange_is_fatal() {
    let (state, action) =
        acquire_step(AuthBootstrapState::Exchanging, BootstrapEvent::ExchangeFailed, 0);
    assert!(matches!(state, AuthBootstrapState::Failed));
    assert!(matches!(action, BootstrapAction::FailBootstrap));
}

#[test]
fn slot_event_orders_shutdown_first() {
    assert!(matches!(slot_event("", true), BootstrapEvent::ShutdownObserved));
    assert!(matches!(slot_event("abc", true), BootstrapEvent::ShutdownObserved));
    assert!(matches!(slot_event("", false), BootstrapEvent::SlotEmpty));
    match slot_event("abc", false) {
        BootstrapEvent::CodeArrived(c) => assert_eq!(c, "abc"),
        _ => panic!("expected the code to be picked up"),
    }
}

#[test]
fn token_from_exchange_stamps_creation_time() {
    let resp = TwitchOAuthResponse {
        access_token: "a".to_string(),
        expires_in: 60,
        refresh_token: "r".to_string(),
    };
    let t = token_from_exchange(resp, 100);
    assert_eq!(t.access_token, "a");
    assert_eq!(t.refresh_token, "r");
    assert_eq!(t.created_at, 100);
    assert_eq!(t.expires_at, Some(160));
}

#[test]
fn token_expiry_is_lazy_and_exact() {
    let t = sample_token();
    assert!(!t.is_expired(1999));
    assert!(t.is_expired(2000));
    assert!(t.is_expired(2001));
    let never = AccessToken { expires_at: None, ..sample_token() };
    assert!(!never.is_expired(i64::MAX));
}

#[test]
fn exchange_body_is_exact() {
    let body = token_exchange_body("id", "sec", "code123", 42069);
    assert_eq!(
        body,
        "client_id=id&client_secret=sec&code=code123&grant_type=authorization_code&redirect_uri=http://localhost:42069/auth"
    );
}

#[test]
fn storage_loads_and_updates() {
    let mut s = TwitchTokenStorage { token: sample_token() };
    let loaded = s.load_token().expect("load never fails");
    assert_eq!(loaded.access_token, sample_token().access_token);
    let mut newer = sample_token();
    newer.created_at = 3000;
    s.update_token(&newer).expect("update never fails");
    assert_eq!(s.token.created_at, 3000);
}

#[test]
fn empty_storage_reports_load_error() {
    let mut s = HappyeBotTokenStorage { token: None };
    match s.load_token() {
        Err(TwitchBotError::TwitchTokenLoadError) => {}
        _ => panic!("an empty store must report the load error"),
    }
    s.update_token(&sample_token()).expect("update never fails");
    assert!(s.load_token().is_ok());
}
