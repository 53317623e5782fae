//! The connector's negotiation, modelled as a state machine: transport
//! establishment, secure-transport handshake, then the two-stage
//! authentication — ambient agent identity first, shared-secret
//! fallback (environment variable, then interactive prompt) second.
//!
//! The machine is pure: a driver performs the action that the current
//! state calls for (open the stream, handshake, try an authentication
//! method, resolve the secret) and feeds the outcome back as an event.
//! Every decision of the protocol — ordering, fallback, classification
//! of failures — is taken by the verified transition function here.

use vstd::prelude::*;
use crate::errors::ConnectionError;

verus! {

/// The name of the environment variable checked first when the secret
/// fallback is resolved.
pub const SECRET_ENV_VAR: &'static str = "ROUTEROS_SSH_PASSWORD";

/// The text of the interactive masked-input prompt used when the
/// environment variable is unset.
pub const SECRET_PROMPT: &'static str = "Password: ";

/// Where the fallback secret was resolved from.
#[derive(Clone, Copy, Debug, PartialEq, Eq, Structural)]
pub enum SecretSource {
    Environment,
    Prompt,
}

/// The method by which a session ended up authenticated.
#[derive(Clone, Copy, Debug, PartialEq, Eq, Structural)]
pub enum AuthMethod {
    Agent,
    Password { source: SecretSource },
}

/// The connector's state. `PasswordAuth` holds the resolved secret so
/// the driver can hand it to the transport; it never flows into an
/// `Established` or `Aborted` value.
#[derive(Clone, Debug, PartialEq, Eq)]
pub enum ConnectState {
    /// Opening the transport stream to the endpoint.
    Connecting,
    /// Negotiating the secure-transport protocol over the open stream.
    Handshaking,
    /// Stage 1: trying the ambient agent identity for the principal.
    AgentAuth,
    /// Stage 2, first source: looking the secret up in the environment.
    ResolvingEnvSecret,
    /// Stage 2, second source: prompting the operator (input not echoed).
    PromptingSecret,
    /// Stage 2: exactly one password attempt with the resolved secret.
    PasswordAuth { secret: String, source: SecretSource },
    /// Terminal: the session is authenticated.
    Established { method: AuthMethod },
    /// Terminal: the connection attempt failed.
    Aborted { error: ConnectionError },
}

/// The mathematical model of a connector state.
pub enum ConnectStateV {
    Connecting,
    Handshaking,
    AgentAuth,
    ResolvingEnvSecret,
    PromptingSecret,
    PasswordAuth { secret: Seq<char>, source: SecretSource },
    Established { method: AuthMethod },
    Aborted { error: ConnectionError },
}

impl View for ConnectState {
    type V = ConnectStateV;

    open spec fn view(&self) -> ConnectStateV {
        match self {
            ConnectState::Connecting => ConnectStateV::Connecting,
            ConnectState::Handshaking => ConnectStateV::Handshaking,
            ConnectState::AgentAuth => ConnectStateV::AgentAuth,
            ConnectState::ResolvingEnvSecret => ConnectStateV::ResolvingEnvSecret,
            ConnectState::PromptingSecret => ConnectStateV::PromptingSecret,
            ConnectState::PasswordAuth { secret, source } => (ConnectStateV::PasswordAuth {
                secret: secret@,
                source: *source,
            }),
            ConnectState::Established { method } => (ConnectStateV::Established {
                method: *method,
            }),
            ConnectState::Aborted { error } => (ConnectStateV::Aborted { error: *error }),
        }
    }
}

/// The outcome of one driver action, fed back into the machine.
#[derive(Clone, Debug, PartialEq, Eq)]
pub enum ConnectEvent {
    TransportOpened,
    TransportFailed,
    HandshakeSucceeded,
    HandshakeFailed,
    /// The server accepted the authentication attempt in flight.
    AuthAccepted,
    /// The server rejected the authentication attempt in flight.
    AuthRejected,
    EnvSecretFound { secret: String },
    EnvSecretAbsent,
    SecretPrompted { secret: String },
}

/// The mathematical model of an event.
pub enum ConnectEventV {
    TransportOpened,
    TransportFailed,
    HandshakeSucceeded,
    HandshakeFailed,
    AuthAccepted,
    AuthRejected,
    EnvSecretFound { secret: Seq<char> },
    EnvSecretAbsent,
    SecretPrompted { secret: Seq<char> },
}

impl View for ConnectEvent {
    type V = ConnectEventV;

    open spec fn view(&self) -> ConnectEventV {
        match self {
            ConnectEvent::TransportOpened => ConnectEventV::TransportOpened,
            ConnectEvent::TransportFailed => ConnectEventV::TransportFailed,
            ConnectEvent::HandshakeSucceeded => ConnectEventV::HandshakeSucceeded,
            ConnectEvent::HandshakeFailed => ConnectEventV::HandshakeFailed,
            ConnectEvent::AuthAccepted => ConnectEventV::AuthAccepted,
            ConnectEvent::AuthRejected => ConnectEventV::AuthRejected,
            ConnectEvent::EnvSecretFound { secret } => (ConnectEventV::EnvSecretFound {
                secret: secret@,
            }),
            ConnectEvent::EnvSecretAbsent => ConnectEventV::EnvSecretAbsent,
            ConnectEvent::SecretPrompted { secret } => (ConnectEventV::SecretPrompted {
                secret: secret@,
            }),
        }
    }
}

/// What the driver must do next in a given state; terminal states call
/// for nothing. The password attempt reads its secret from the
/// `PasswordAuth` state itself.
#[derive(Clone, Copy, Debug, PartialEq, Eq, Structural)]
pub enum ConnectAction {
    /// Open a reliable byte stream to the endpoint of the settings.
    OpenTransport,
    /// Negotiate the secure-transport protocol on the open stream.
    PerformHandshake,
    /// Try authentication with the ambient agent identity.
    TryAgentAuth,
    /// Look the secret up under the name `SECRET_ENV_VAR`.
    ReadEnvSecret,
    /// Prompt the operator with `SECRET_PROMPT`, input not echoed.
    PromptForSecret,
    /// Try password authentication with the secret held by the state.
    TryPasswordAuth,
}

/// A connection attempt starts by opening the transport.
pub open spec fn spec_initial_state() -> ConnectStateV {
    ConnectStateV::Connecting
}

pub fn initial_state() -> (s: ConnectState)
    ensures
        s@ == spec_initial_state(),
{
    ConnectState::Connecting
}

/// Terminal states accept no further event.
pub open spec fn is_terminal(s: ConnectStateV) -> bool {
    s is Established || s is Aborted
}

/// Which events are possible outcomes of the action a state calls for.
pub open spec fn event_fits(s: ConnectStateV, e: ConnectEventV) -> bool {
    match s {
        ConnectStateV::Connecting => e is TransportOpened || e is TransportFailed,
        ConnectStateV::Handshaking => e is HandshakeSucceeded || e is HandshakeFailed,
        ConnectStateV::AgentAuth => e is AuthAccepted || e is AuthRejected,
        ConnectStateV::ResolvingEnvSecret => e is EnvSecretFound || e is EnvSecretAbsent,
        ConnectStateV::PromptingSecret => e is SecretPrompted,
        ConnectStateV::PasswordAuth { .. } => e is AuthAccepted || e is AuthRejected,
        ConnectStateV::Established { .. } => false,
        ConnectStateV::Aborted { .. } => false,
    }
}

/// The transition relation of the negotiation. An event that does not
/// fit the state changes nothing.
pub open spec fn spec_step(s: ConnectStateV, e: ConnectEventV) -> ConnectStateV {
    match (s, e) {
        (ConnectStateV::Connecting, ConnectEventV::TransportOpened) => ConnectStateV::Handshaking,
        (ConnectStateV::Connecting, ConnectEventV::TransportFailed) => (ConnectStateV::Aborted {
            error: ConnectionError::ConnectFailed,
        }),
        (ConnectStateV::Handshaking, ConnectEventV::HandshakeSucceeded) => ConnectStateV::AgentAuth,
        (ConnectStateV::Handshaking, ConnectEventV::HandshakeFailed) => (ConnectStateV::Aborted {
            error: ConnectionError::HandshakeFailed,
        }),
        (ConnectStateV::AgentAuth, ConnectEventV::AuthAccepted) => (ConnectStateV::Established {
            method: AuthMethod::Agent,
        }),
        (ConnectStateV::AgentAuth, ConnectEventV::AuthRejected) => ConnectStateV::ResolvingEnvSecret,
        (
            ConnectStateV::ResolvingEnvSecret,
            ConnectEventV::EnvSecretFound { secret },
        ) => (ConnectStateV::PasswordAuth { secret, source: SecretSource::Environment }),
        (
            ConnectStateV::ResolvingEnvSecret,
            ConnectEventV::EnvSecretAbsent,
        ) => ConnectStateV::PromptingSecret,
        (
            ConnectStateV::PromptingSecret,
            ConnectEventV::SecretPrompted { secret },
        ) => (ConnectStateV::PasswordAuth { secret, source: SecretSource::Prompt }),
        (
            ConnectStateV::PasswordAuth { secret: _, source },
            ConnectEventV::AuthAccepted,
        ) => (ConnectStateV::Established { method: AuthMethod::Password { source } }),
        (
            ConnectStateV::PasswordAuth { .. },
            ConnectEventV::AuthRejected,
        ) => (ConnectStateV::Aborted { error: ConnectionError::AuthenticationFailed }),
        (other, _) => other,
    }
}

/// The executable transition function; its result is exactly the model
/// transition on the views.
pub fn step(state: ConnectState, event: ConnectEvent) -> (next: ConnectState)
    ensures
        next@ == spec_step(state@, event@),
{
    match (state, event) {
        (ConnectState::Connecting, ConnectEvent::TransportOpened) => ConnectState::Handshaking,
        (ConnectState::Connecting, ConnectEvent::TransportFailed) => ConnectState::Aborted {
            error: ConnectionError::ConnectFailed,
        },
        (ConnectState::Handshaking, ConnectEvent::HandshakeSucceeded) => ConnectState::AgentAuth,
        (ConnectState::Handshaking, ConnectEvent::HandshakeFailed) => ConnectState::Aborted {
            error: ConnectionError::HandshakeFailed,
        },
        (ConnectState::AgentAuth, ConnectEvent::AuthAccepted) => ConnectState::Established {
            method: AuthMethod::Agent,
        },
        (ConnectState::AgentAuth, ConnectEvent::AuthRejected) => ConnectState::ResolvingEnvSecret,
        (
            ConnectState::ResolvingEnvSecret,
            ConnectEvent::EnvSecretFound { secret },
        ) => ConnectState::PasswordAuth { secret, source: SecretSource::Environment },
        (
            ConnectState::ResolvingEnvSecret,
            ConnectEvent::EnvSecretAbsent,
        ) => ConnectState::PromptingSecret,
        (
            ConnectState::PromptingSecret,
            ConnectEvent::SecretPrompted { secret },
        ) => ConnectState::PasswordAuth { secret, source: SecretSource::Prompt },
        (
            ConnectState::PasswordAuth { secret: _, source },
            ConnectEvent::AuthAccepted,
        ) => ConnectState::Established { method: AuthMethod::Password { source } },
        (
            ConnectState::PasswordAuth { .. },
            ConnectEvent::AuthRejected,
        ) => ConnectState::Aborted { error: ConnectionError::AuthenticationFailed },
        (other, _) => other,
    }
}

/// What the driver must do in each state; `None` in terminal states.
pub open spec fn spec_next_action(s: ConnectStateV) -> Option<ConnectAction> {
    match s {
        ConnectStateV::Connecting => Some(ConnectAction::OpenTransport),
        ConnectStateV::Handshaking => Some(ConnectAction::PerformHandshake),
        ConnectStateV::AgentAuth => Some(ConnectAction::TryAgentAuth),
        ConnectStateV::ResolvingEnvSecret => Some(ConnectAction::ReadEnvSecret),
        ConnectStateV::PromptingSecret => Some(ConnectAction::PromptForSecret),
        ConnectStateV::PasswordAuth { .. } => Some(ConnectAction::TryPasswordAuth),
        ConnectStateV::Established { .. } => None,
        ConnectStateV::Aborted { .. } => None,
    }
}

pub fn next_action(state: &ConnectState) -> (a: Option<ConnectAction>)
    ensures
        a == spec_next_action(state@),
{
    match state {
        ConnectState::Connecting => Some(ConnectAction::OpenTransport),
        ConnectState::Handshaking => Some(ConnectAction::PerformHandshake),
        ConnectState::AgentAuth => Some(ConnectAction::TryAgentAuth),
        ConnectState::ResolvingEnvSecret => Some(ConnectAction::ReadEnvSecret),
        ConnectState::PromptingSecret => Some(ConnectAction::PromptForSecret),
        ConnectState::PasswordAuth { .. } => Some(ConnectAction::TryPasswordAuth),
        ConnectState::Established { .. } => None,
        ConnectState::Aborted { .. } => None,
    }
}

/// The state after a whole sequence of events, starting from the
/// initial state.
pub open spec fn run(events: Seq<ConnectEventV>) -> ConnectStateV
    decreases events.len(),
{
    if events.len() == 0 {
        spec_initial_state()
    } else {
        spec_step(run(events.drop_last()), events.last())
    }
}

/// A sequence of events each of which fits the state it arrives in:
/// what any real driver produces when guided by `next_action`.
pub open spec fn run_fits(events: Seq<ConnectEventV>) -> bool {
    forall|i: int|
        0 <= i < events.len() ==> #[trigger] event_fits(run(events.take(i)), events[i])
}

/// The protocol only moves forward: each state is assigned its position
/// in the negotiation, and no transition decreases it.
pub open spec fn phase(s: ConnectStateV) -> int {
    match s {
        ConnectStateV::Connecting => 0,
        ConnectStateV::Handshaking => 1,
        ConnectStateV::AgentAuth => 2,
        ConnectStateV::ResolvingEnvSecret => 3,
        ConnectStateV::PromptingSecret => 4,
        ConnectStateV::PasswordAuth { .. } => 5,
        ConnectStateV::Established { .. } => 6,
        ConnectStateV::Aborted { .. } => 7,
    }
}

proof fn lemma_step_phase(s: ConnectStateV, e: ConnectEventV)
    ensures
        phase(spec_step(s, e)) >= phase(s),
{
}

/// One more event extends the run by one transition.
pub proof fn lemma_run_take_succ(events: Seq<ConnectEventV>, i: int)
    requires
        0 <= i < events.len(),
    ensures
        run(events.take(i + 1)) == spec_step(run(events.take(i)), events[i]),
{
    let t = events.take(i + 1);
    assert(t.drop_last() =~= events.take(i));
    assert(t.last() == events[i]);
}

/// Along any run the phase never decreases.
pub proof fn lemma_run_phase_monotonic(events: Seq<ConnectEventV>, i: int, j: int)
    requires
        0 <= i <= j <= events.len(),
    ensures
        phase(run(events.take(i))) <= phase(run(events.take(j))),
    decreases j - i,
{
    if i < j {
        lemma_run_phase_monotonic(events, i, j - 1);
        lemma_run_take_succ(events, j - 1);
        lemma_step_phase(run(events.take(j - 1)), events[j - 1]);
    }
}

/// Terminal states are fixed points: once established or aborted, the
/// run never changes again.
pub proof fn lemma_terminal_stable(events: Seq<ConnectEventV>, i: int, j: int)
    requires
        0 <= i <= j <= events.len(),
        is_terminal(run(events.take(i))),
    ensures
        run(events.take(j)) == run(events.take(i)),
    decreases j - i,
{
    if i < j {
        lemma_terminal_stable(events, i, j - 1);
        lemma_run_take_succ(events, j - 1);
    }
}

/// Authentication precedence: when the ambient agent identity succeeds,
/// the run is established via the agent, and no point of the run — past
/// or future — is ever on the secret fallback path (environment lookup,
/// interactive prompt, or a password attempt).
pub proof fn lemma_auth_precedence(events: Seq<ConnectEventV>, i: int)
    requires
        0 <= i < events.len(),
        run(events.take(i)) is AgentAuth,
        events[i] is AuthAccepted,
    ensures
        run(events.take(i + 1)) == (ConnectStateV::Established { method: AuthMethod::Agent }),
        forall|j: int|
            0 <= j <= events.len() ==> {
                &&& !(#[trigger] run(events.take(j)) is ResolvingEnvSecret)
                &&& !(run(events.take(j)) is PromptingSecret)
                &&& !(run(events.take(j)) is PasswordAuth)
            },
{
    lemma_run_take_succ(events, i);
    assert forall|j: int| 0 <= j <= events.len() implies {
        &&& !(#[trigger] run(events.take(j)) is ResolvingEnvSecret)
        &&& !(run(events.take(j)) is PromptingSecret)
        &&& !(run(events.take(j)) is PasswordAuth)
    } by {
        if j <= i {
            lemma_run_phase_monotonic(events, j, i);
        } else {
            lemma_terminal_stable(events, i + 1, j);
        }
    }
}

/// Fallback correctness: when the agent identity is rejected and the
/// environment provides a secret that the server accepts, the session
/// is established via the environment-sourced password and the
/// interactive prompt is never invoked at any point of the run.
pub proof fn lemma_auth_fallback_env(events: Seq<ConnectEventV>, i: int)
    requires
        0 <= i,
        i + 3 <= events.len(),
        run(events.take(i)) is AgentAuth,
        events[i] is AuthRejected,
        events[i + 1] is EnvSecretFound,
        events[i + 2] is AuthAccepted,
    ensures
        run(events.take(i + 3)) == (ConnectStateV::Established {
            method: AuthMethod::Password { source: SecretSource::Environment },
        }),
        forall|j: int| 0 <= j <= events.len() ==> !(#[trigger] run(events.take(j)) is PromptingSecret),
{
    lemma_run_take_succ(events, i);
    lemma_run_take_succ(events, i + 1);
    lemma_run_take_succ(events, i + 2);
    assert forall|j: int| 0 <= j <= events.len() implies !(#[trigger] run(
        events.take(j),
    ) is PromptingSecret) by {
        if j <= i {
            lemma_run_phase_monotonic(events, j, i);
        } else if j > i + 3 {
            lemma_terminal_stable(events, i + 3, j);
        }
    }
}

/// Fallback failure: once the single password attempt is rejected, the
/// run aborts with `AuthenticationFailed`, and at no point of the run —
/// before or after — is a session ever established.
pub proof fn lemma_auth_fallback_failure(events: Seq<ConnectEventV>, i: int)
    requires
        0 <= i < events.len(),
        run(events.take(i)) is PasswordAuth,
        events[i] is AuthRejected,
    ensures
        run(events.take(i + 1)) == (ConnectStateV::Aborted {
            error: ConnectionError::AuthenticationFailed,
        }),
        forall|j: int| 0 <= j <= events.len() ==> !(#[trigger] run(events.take(j)) is Established),
{
    lemma_run_take_succ(events, i);
    assert forall|j: int| 0 <= j <= events.len() implies !(#[trigger] run(
        events.take(j),
    ) is Established) by {
        if j <= i {
            lemma_run_phase_monotonic(events, j, i);
        } else {
            lemma_terminal_stable(events, i + 1, j);
        }
    }
}

/// The password attempt happens at most once: in a fitting run, after
/// the machine has been in the password-attempt state it never is
/// again — whatever the server answered, there is no retry loop on a
/// wrong password.
pub proof fn lemma_password_attempted_once(events: Seq<ConnectEventV>, i: int, j: int)
    requires
        run_fits(events),
        0 <= i < j <= events.len(),
        run(events.take(i)) is PasswordAuth,
    ensures
        !(run(events.take(j)) is PasswordAuth),
{
    assert(event_fits(run(events.take(i)), events[i]));
    lemma_run_take_succ(events, i);
    lemma_run_phase_monotonic(events, i + 1, j);
}

/// No secret leakage: a rejected password attempt leads to the same
/// aborted state whatever secret was attempted, so the surfaced error —
/// a bare tag whose message is a fixed text — cannot carry the secret.
pub proof fn lemma_no_secret_in_failure(s1: Seq<char>, s2: Seq<char>, source: SecretSource)
    ensures
        spec_step(
            ConnectStateV::PasswordAuth { secret: s1, source },
            ConnectEventV::AuthRejected,
        ) == spec_step(
            ConnectStateV::PasswordAuth { secret: s2, source },
            ConnectEventV::AuthRejected,
        ),
{
}

} // verus!
