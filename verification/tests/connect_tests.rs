use declarative_routeros::connect::{
    initial_state, next_action, step, AuthMethod, ConnectAction, ConnectEvent, ConnectState,
    SecretSource,
};
use declarative_routeros::errors::ConnectionError;

/// Drives the machine over the given events, recording every action the
/// machine asked for along the way.
fn drive(events: Vec<ConnectEvent>) -> (ConnectState, Vec<ConnectAction>) {
    let mut state = initial_state();
    let mut actions: Vec<ConnectAction> = Vec::new();
    if let Some(a) = next_action(&state) {
        actions.push(a);
    }
    for event in events {
        state = step(state, event);
        if let Some(a) = next_action(&state) {
            actions.push(a);
        }
    }
    (state, actions)
}

#[test]
fn secret_resolution_interface_is_fixed() {
    assert_eq!(declarative_routeros::connect::SECRET_ENV_VAR, "ROUTEROS_SSH_PASSWORD");
    assert_eq!(declarative_routeros::connect::SECRET_PROMPT, "Password: ");
}

#[test]
fn agent_success_never_touches_secret_path() {
    let (state, actions) = drive(vec![
        ConnectEvent::TransportOpened,
        ConnectEvent::HandshakeSucceeded,
        ConnectEvent::AuthAccepted,
    ]);
    assert_eq!(state, ConnectState::Established { method: AuthMethod::Agent });
    assert!(!actions.contains(&ConnectAction::ReadEnvSecret));
    assert!(!actions.contains(&ConnectAction::PromptForSecret));
    assert!(!actions.contains(&ConnectAction::TryPasswordAuth));
}

#[test]
fn env_secret_fallback_succeeds_without_prompt() {
    let (state, actions) = drive(vec![
        ConnectEvent::TransportOpened,
        ConnectEvent::HandshakeSucceeded,
        ConnectEvent::AuthRejected,
        ConnectEvent::EnvSecretFound { secret: "correct-secret".to_string() },
        ConnectEvent::AuthAccepted,
    ]);
    assert_eq!(
        state,
        ConnectState::Established {
            method: AuthMethod::Password { source: SecretSource::Environment },
        }
    );
    assert!(!actions.contains(&ConnectAction::PromptForSecret));
}

#[test]
fn prompted_secret_fallback_succeeds_when_env_is_unset() {
    let (state, actions) = drive(vec![
        ConnectEvent::TransportOpened,
        ConnectEvent::HandshakeSucceeded,
        ConnectEvent::AuthRejected,
        ConnectEvent::EnvSecretAbsent,
        ConnectEvent::SecretPrompted { secret: "typed-secret".to_string() },
        ConnectEvent::AuthAccepted,
    ]);
    assert_eq!(
        state,
        ConnectState::Established { method: AuthMethod::Password { source: SecretSource::Prompt } }
    );
    assert!(actions.contains(&ConnectAction::ReadEnvSecret));
    assert!(actions.contains(&ConnectAction::PromptForSecret));
}

#[test]
fn rejected_password_aborts_and_never_establishes() {
    let (state, actions) = drive(vec![
        ConnectEvent::TransportOpened,
        ConnectEvent::HandshakeSucceeded,
        ConnectEvent::AuthRejected,
        ConnectEvent::EnvSecretAbsent,
        ConnectEvent::SecretPrompted { secret: "wrong-secret".to_string() },
        ConnectEvent::AuthRejected,
    ]);
    assert_eq!(state, ConnectState::Aborted { error: ConnectionError::AuthenticationFailed });
    assert!(!matches!(state, ConnectState::Established { .. }));
    // The password attempt happened exactly once: no retry loop.
    let attempts = actions.iter().filter(|a| **a == ConnectAction::TryPasswordAuth).count();
    assert_eq!(attempts, 1);
    assert_eq!(next_action(&state), None);
}

#[test]
fn transport_failure_aborts_before_any_authentication() {
    let (state, actions) = drive(vec![ConnectEvent::TransportFailed]);
    assert_eq!(state, ConnectState::Aborted { error: ConnectionError::ConnectFailed });
    assert!(!actions.contains(&ConnectAction::TryAgentAuth));
    assert!(!actions.contains(&ConnectAction::TryPasswordAuth));
}

#[test]
fn handshake_failure_aborts_before_any_authentication() {
    let (state, actions) = drive(vec![
        ConnectEvent::TransportOpened,
        ConnectEvent::HandshakeFailed,
    ]);
    assert_eq!(state, ConnectState::Aborted { error: ConnectionError::HandshakeFailed });
    assert!(!actions.contains(&ConnectAction::TryAgentAuth));
}

#[test]
fn established_state_is_terminal() {
    let (state, _) = drive(vec![
        ConnectEvent::TransportOpened,
        ConnectEvent::HandshakeSucceeded,
        ConnectEvent::AuthAccepted,
    ]);
    assert_eq!(next_action(&state), None);
    // Further events change nothing.
    let after = step(state.clone(), ConnectEvent::AuthRejected);
    assert_eq!(after, state);
}

#[test]
fn failed_auth_error_is_identical_whatever_secret_was_tried() {
    let events_with = |secret: &str| {
        vec![
            ConnectEvent::TransportOpened,
            ConnectEvent::HandshakeSucceeded,
            ConnectEvent::AuthRejected,
            ConnectEvent::EnvSecretFound { secret: secret.to_string() },
            ConnectEvent::AuthRejected,
        ]
    };
    let (first, _) = drive(events_with("one-secret"));
    let (second, _) = drive(events_with("another-secret"));
    assert_eq!(first, second);
}

#[test]
fn no_error_message_contains_the_secret() {
    let secret = "very-secret-value";
    let (state, _) = drive(vec![
        ConnectEvent::TransportOpened,
        ConnectEvent::HandshakeSucceeded,
        ConnectEvent::AuthRejected,
        ConnectEvent::EnvSecretAbsent,
        ConnectEvent::SecretPrompted { secret: secret.to_string() },
        ConnectEvent::AuthRejected,
    ]);
    if let ConnectState::Aborted { error } = state {
        let message = error.message();
        assert!(!message.contains(secret));
        assert_eq!(
            message,
            "authentication failed: agent identity and password fallback were both rejected"
        );
    } else {
        panic!("expected an aborted state");
    }
    for error in [
        ConnectionError::ConnectFailed,
        ConnectionError::HandshakeFailed,
        ConnectionError::AuthenticationFailed,
    ] {
        assert!(!error.message().contains(secret));
    }
}
