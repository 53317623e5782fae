//! The command executor, modelled as a state machine: open one channel
//! on the authenticated session, dispatch the command verbatim, drain
//! the output stream to completion, wait for the channel to close, and
//! only then read the remote exit status — the drain-before-status
//! ordering is built into the transition relation itself, since the
//! status request is only ever issued from the state reached after the
//! output stream has ended and the channel has closed.

use vstd::prelude::*;
use vstd::string::StringExecFns;
use crate::errors::ExecutionError;

verus! {

/// What one command invocation produced: the fully drained output and
/// the remote numeric exit status.
#[derive(Clone, Debug, PartialEq, Eq)]
pub struct ExecutionResult {
    pub captured_output: String,
    pub exit_code: i32,
}

/// The mathematical model of a result.
#[verifier::ext_equal]
pub struct ExecutionResultV {
    pub captured_output: Seq<char>,
    pub exit_code: int,
}

impl View for ExecutionResult {
    type V = ExecutionResultV;

    open spec fn view(&self) -> ExecutionResultV {
        ExecutionResultV { captured_output: self.captured_output@, exit_code: self.exit_code as int }
    }
}

/// The executor's state for one command invocation.
#[derive(Clone, Debug, PartialEq, Eq)]
pub enum ExecState {
    /// Opening the logical command channel on the session.
    OpeningChannel,
    /// Dispatching the command string verbatim.
    Dispatching,
    /// Draining the output stream; `collected` is everything read so far.
    Draining { collected: String },
    /// Output ended; waiting for the channel to signal close.
    WaitingClose { output: String },
    /// Channel closed; the exit status may now be read.
    ReadingStatus { output: String },
    /// Terminal: the command ran to completion.
    Finished { result: ExecutionResult },
    /// Terminal: an input/output failure ended the invocation.
    Failed { error: ExecutionError },
}

/// The mathematical model of an executor state.
pub enum ExecStateV {
    OpeningChannel,
    Dispatching,
    Draining { collected: Seq<char> },
    WaitingClose { output: Seq<char> },
    ReadingStatus { output: Seq<char> },
    Finished { result: ExecutionResultV },
    Failed { error: ExecutionError },
}

impl View for ExecState {
    type V = ExecStateV;

    open spec fn view(&self) -> ExecStateV {
        match self {
            ExecState::OpeningChannel => ExecStateV::OpeningChannel,
            ExecState::Dispatching => ExecStateV::Dispatching,
            ExecState::Draining { collected } => (ExecStateV::Draining { collected: collected@ }),
            ExecState::WaitingClose { output } => (ExecStateV::WaitingClose { output: output@ }),
            ExecState::ReadingStatus { output } => (ExecStateV::ReadingStatus { output: output@ }),
            ExecState::Finished { result } => (ExecStateV::Finished { result: result@ }),
            ExecState::Failed { error } => (ExecStateV::Failed { error: *error }),
        }
    }
}

/// The outcome of one driver action on the channel.
#[derive(Clone, Debug, PartialEq, Eq)]
pub enum ExecEvent {
    ChannelOpened,
    ChannelOpenFailed,
    CommandDispatched,
    DispatchFailed,
    /// One block of output read from the channel.
    OutputChunk { data: String },
    /// The output stream reached its end.
    OutputEnd,
    OutputReadFailed,
    ChannelClosed,
    CloseFailed,
    ExitStatus { code: i32 },
    StatusReadFailed,
}

/// The mathematical model of an event.
pub enum ExecEventV {
    ChannelOpened,
    ChannelOpenFailed,
    CommandDispatched,
    DispatchFailed,
    OutputChunk { data: Seq<char> },
    OutputEnd,
    OutputReadFailed,
    ChannelClosed,
    CloseFailed,
    ExitStatus { code: int },
    StatusReadFailed,
}

impl View for ExecEvent {
    type V = ExecEventV;

    open spec fn view(&self) -> ExecEventV {
        match self {
            ExecEvent::ChannelOpened => ExecEventV::ChannelOpened,
            ExecEvent::ChannelOpenFailed => ExecEventV::ChannelOpenFailed,
            ExecEvent::CommandDispatched => ExecEventV::CommandDispatched,
            ExecEvent::DispatchFailed => ExecEventV::DispatchFailed,
            ExecEvent::OutputChunk { data } => (ExecEventV::OutputChunk { data: data@ }),
            ExecEvent::OutputEnd => ExecEventV::OutputEnd,
            ExecEvent::OutputReadFailed => ExecEventV::OutputReadFailed,
            ExecEvent::ChannelClosed => ExecEventV::ChannelClosed,
            ExecEvent::CloseFailed => ExecEventV::CloseFailed,
            ExecEvent::ExitStatus { code } => (ExecEventV::ExitStatus { code: *code as int }),
            ExecEvent::StatusReadFailed => ExecEventV::StatusReadFailed,
        }
    }
}

/// What the driver must do next in a given state; terminal states call
/// for nothing.
#[derive(Clone, Copy, Debug, PartialEq, Eq, Structural)]
pub enum ExecAction {
    /// Open one logical command channel multiplexed over the session.
    OpenChannel,
    /// Dispatch the command string verbatim to the remote shell.
    DispatchCommand,
    /// Read from the channel's output stream until a chunk or its end.
    ReadOutput,
    /// Block until the channel signals close.
    WaitForClose,
    /// Retrieve the remote numeric exit status.
    ReadExitStatus,
}

/// A command invocation starts by opening the channel.
pub open spec fn spec_initial_state() -> ExecStateV {
    ExecStateV::OpeningChannel
}

pub fn initial_state() -> (s: ExecState)
    ensures
        s@ == spec_initial_state(),
{
    ExecState::OpeningChannel
}

/// Terminal states accept no further event.
pub open spec fn is_terminal(s: ExecStateV) -> bool {
    s is Finished || s is Failed
}

/// Which events are possible outcomes of the action a state calls for.
/// An exit status can only arrive in `ReadingStatus`, which is only
/// reached once the output stream has ended and the channel has closed.
pub open spec fn event_fits(s: ExecStateV, e: ExecEventV) -> bool {
    match s {
        ExecStateV::OpeningChannel => e is ChannelOpened || e is ChannelOpenFailed,
        ExecStateV::Dispatching => e is CommandDispatched || e is DispatchFailed,
        ExecStateV::Draining { .. } => e is OutputChunk || e is OutputEnd || e is OutputReadFailed,
        ExecStateV::WaitingClose { .. } => e is ChannelClosed || e is CloseFailed,
        ExecStateV::ReadingStatus { .. } => e is ExitStatus || e is StatusReadFailed,
        ExecStateV::Finished { .. } => false,
        ExecStateV::Failed { .. } => false,
    }
}

/// The transition relation of one command invocation. An event that
/// does not fit the state changes nothing.
pub open spec fn spec_step(s: ExecStateV, e: ExecEventV) -> ExecStateV {
    match (s, e) {
        (ExecStateV::OpeningChannel, ExecEventV::ChannelOpened) => ExecStateV::Dispatching,
        (ExecStateV::OpeningChannel, ExecEventV::ChannelOpenFailed) => (ExecStateV::Failed {
            error: ExecutionError::ChannelOpenFailed,
        }),
        (ExecStateV::Dispatching, ExecEventV::CommandDispatched) => (ExecStateV::Draining {
            collected: Seq::empty(),
        }),
        (ExecStateV::Dispatching, ExecEventV::DispatchFailed) => (ExecStateV::Failed {
            error: ExecutionError::DispatchFailed,
        }),
        (
            ExecStateV::Draining { collected },
            ExecEventV::OutputChunk { data },
        ) => (ExecStateV::Draining { collected: collected + data }),
        (ExecStateV::Draining { collected }, ExecEventV::OutputEnd) => (ExecStateV::WaitingClose {
            output: collected,
        }),
        (ExecStateV::Draining { .. }, ExecEventV::OutputReadFailed) => (ExecStateV::Failed {
            error: ExecutionError::OutputReadFailed,
        }),
        (ExecStateV::WaitingClose { output }, ExecEventV::ChannelClosed) => (
        ExecStateV::ReadingStatus { output }),
        (ExecStateV::WaitingClose { .. }, ExecEventV::CloseFailed) => (ExecStateV::Failed {
            error: ExecutionError::CloseFailed,
        }),
        (ExecStateV::ReadingStatus { output }, ExecEventV::ExitStatus { code }) => (
        ExecStateV::Finished {
            result: ExecutionResultV { captured_output: output, exit_code: code },
        }),
        (ExecStateV::ReadingStatus { .. }, ExecEventV::StatusReadFailed) => (ExecStateV::Failed {
            error: ExecutionError::StatusReadFailed,
        }),
        (other, _) => other,
    }
}

/// The executable transition function; its result is exactly the model
/// transition on the views.
pub fn step(state: ExecState, event: ExecEvent) -> (next: ExecState)
    ensures
        next@ == spec_step(state@, event@),
{
    match (state, event) {
        (ExecState::OpeningChannel, ExecEvent::ChannelOpened) => ExecState::Dispatching,
        (ExecState::OpeningChannel, ExecEvent::ChannelOpenFailed) => ExecState::Failed {
            error: ExecutionError::ChannelOpenFailed,
        },
        (ExecState::Dispatching, ExecEvent::CommandDispatched) => ExecState::Draining {
            collected: String::new(),
        },
        (ExecState::Dispatching, ExecEvent::DispatchFailed) => ExecState::Failed {
            error: ExecutionError::DispatchFailed,
        },
        (ExecState::Draining { collected }, ExecEvent::OutputChunk { data }) => {
            let mut grown = collected;
            grown.append(data.as_str());
            ExecState::Draining { collected: grown }
        },
        (ExecState::Draining { collected }, ExecEvent::OutputEnd) => ExecState::WaitingClose {
            output: collected,
        },
        (ExecState::Draining { .. }, ExecEvent::OutputReadFailed) => ExecState::Failed {
            error: ExecutionError::OutputReadFailed,
        },
        (ExecState::WaitingClose { output }, ExecEvent::ChannelClosed) => ExecState::ReadingStatus {
            output,
        },
        (ExecState::WaitingClose { .. }, ExecEvent::CloseFailed) => ExecState::Failed {
            error: ExecutionError::CloseFailed,
        },
        (ExecState::ReadingStatus { output }, ExecEvent::ExitStatus { code }) => ExecState::Finished {
            result: ExecutionResult { captured_output: output, exit_code: code },
        },
        (ExecState::ReadingStatus { .. }, ExecEvent::StatusReadFailed) => ExecState::Failed {
            error: ExecutionError::StatusReadFailed,
        },
        (other, _) => other,
    }
}

/// What the driver must do in each state; `None` in terminal states.
pub open spec fn spec_next_action(s: ExecStateV) -> Option<ExecAction> {
    match s {
        ExecStateV::OpeningChannel => Some(ExecAction::OpenChannel),
        ExecStateV::Dispatching => Some(ExecAction::DispatchCommand),
        ExecStateV::Draining { .. } => Some(ExecAction::ReadOutput),
        ExecStateV::WaitingClose { .. } => Some(ExecAction::WaitForClose),
        ExecStateV::ReadingStatus { .. } => Some(ExecAction::ReadExitStatus),
        ExecStateV::Finished { .. } => None,
        ExecStateV::Failed { .. } => None,
    }
}

pub fn next_action(state: &ExecState) -> (a: Option<ExecAction>)
    ensures
        a == spec_next_action(state@),
{
    match state {
        ExecState::OpeningChannel => Some(ExecAction::OpenChannel),
        ExecState::Dispatching => Some(ExecAction::DispatchCommand),
        ExecState::Draining { .. } => Some(ExecAction::ReadOutput),
        ExecState::WaitingClose { .. } => Some(ExecAction::WaitForClose),
        ExecState::ReadingStatus { .. } => Some(ExecAction::ReadExitStatus),
        ExecState::Finished { .. } => None,
        ExecState::Failed { .. } => None,
    }
}

/// The state after a whole sequence of events, starting from the
/// initial state.
pub open spec fn run(events: Seq<ExecEventV>) -> ExecStateV
    decreases events.len(),
{
    if events.len() == 0 {
        spec_initial_state()
    } else {
        spec_step(run(events.drop_last()), events.last())
    }
}

/// A sequence of events each of which fits the state it arrives in:
/// what any real channel produces when driven by `next_action`.
pub open spec fn run_fits(events: Seq<ExecEventV>) -> bool {
    forall|i: int|
        0 <= i < events.len() ==> #[trigger] event_fits(run(events.take(i)), events[i])
}

/// Everything the remote side produced: the concatenation of the data
/// of all output chunks, in order.
pub open spec fn chunks_concat(events: Seq<ExecEventV>) -> Seq<char>
    decreases events.len(),
{
    if events.len() == 0 {
        Seq::empty()
    } else {
        chunks_concat(events.drop_last()) + (match events.last() {
            ExecEventV::OutputChunk { data } => data,
            _ => Seq::empty(),
        })
    }
}

/// Every exit status the channel reported, in order.
pub open spec fn statuses(events: Seq<ExecEventV>) -> Seq<int>
    decreases events.len(),
{
    if events.len() == 0 {
        Seq::empty()
    } else {
        statuses(events.drop_last()) + (match events.last() {
            ExecEventV::ExitStatus { code } => seq![code],
            _ => Seq::empty(),
        })
    }
}

/// The drain invariant: at every point of a fitting run, the output
/// held by the state is exactly the concatenation of the chunks so
/// far, and no status has been reported before `Finished`.
pub open spec fn drain_inv(s: ExecStateV, events: Seq<ExecEventV>) -> bool {
    match s {
        ExecStateV::OpeningChannel => chunks_concat(events) == Seq::<char>::empty() && statuses(
            events,
        ) == Seq::<int>::empty(),
        ExecStateV::Dispatching => chunks_concat(events) == Seq::<char>::empty() && statuses(
            events,
        ) == Seq::<int>::empty(),
        ExecStateV::Draining { collected } => collected == chunks_concat(events) && statuses(
            events,
        ) == Seq::<int>::empty(),
        ExecStateV::WaitingClose { output } => output == chunks_concat(events) && statuses(events)
            == Seq::<int>::empty(),
        ExecStateV::ReadingStatus { output } => output == chunks_concat(events) && statuses(events)
            == Seq::<int>::empty(),
        ExecStateV::Finished { result } => result.captured_output == chunks_concat(events)
            && statuses(events) == seq![result.exit_code],
        ExecStateV::Failed { .. } => true,
    }
}

/// The classification of a completed command: exit code zero is
/// success; any other code is an operational failure reported with the
/// code and the full captured output for diagnosis. Neither is a hard
/// error of this core — the caller decides the final disposition.
#[derive(Clone, Debug, PartialEq, Eq)]
pub enum CommandOutcome {
    Success { output: String },
    RemoteCommandFailed { output: String, exit_code: i32 },
}

/// The mathematical model of an outcome.
pub enum CommandOutcomeV {
    Success { output: Seq<char> },
    RemoteCommandFailed { output: Seq<char>, exit_code: int },
}

impl View for CommandOutcome {
    type V = CommandOutcomeV;

    open spec fn view(&self) -> CommandOutcomeV {
        match self {
            CommandOutcome::Success { output } => (CommandOutcomeV::Success { output: output@ }),
            CommandOutcome::RemoteCommandFailed { output, exit_code } => (
            CommandOutcomeV::RemoteCommandFailed {
                output: output@,
                exit_code: *exit_code as int,
            }),
        }
    }
}

/// Exit code zero classifies as success; any nonzero code classifies as
/// a remote command failure carrying the code and the full output.
pub open spec fn spec_classify(r: ExecutionResultV) -> CommandOutcomeV {
    if r.exit_code == 0 {
        CommandOutcomeV::Success { output: r.captured_output }
    } else {
        CommandOutcomeV::RemoteCommandFailed {
            output: r.captured_output,
            exit_code: r.exit_code,
        }
    }
}

/// Classifies a completed command's result by its exit code.
pub fn classify(result: ExecutionResult) -> (outcome: CommandOutcome)
    ensures
        outcome@ == spec_classify(result@),
        result@.exit_code == 0 <==> outcome is Success,
{
    if result.exit_code == 0 {
        CommandOutcome::Success { output: result.captured_output }
    } else {
        CommandOutcome::RemoteCommandFailed {
            output: result.captured_output,
            exit_code: result.exit_code,
        }
    }
}

/// A prefix of a fitting run is itself a fitting run.
pub proof fn lemma_run_fits_prefix(events: Seq<ExecEventV>, n: int)
    requires
        run_fits(events),
        0 <= n <= events.len(),
    ensures
        run_fits(events.take(n)),
{
    let t = events.take(n);
    assert forall|i: int| 0 <= i < t.len() implies #[trigger] event_fits(
        run(t.take(i)),
        t[i],
    ) by {
        assert(event_fits(run(events.take(i)), events[i]));
        assert(t.take(i) =~= events.take(i));
    }
}

/// The drain invariant holds of every fitting run.
pub proof fn lemma_run_invariant(events: Seq<ExecEventV>)
    requires
        run_fits(events),
    ensures
        drain_inv(run(events), events),
    decreases events.len(),
{
    if events.len() > 0 {
        let n = events.len() - 1;
        let prefix = events.drop_last();
        assert(prefix =~= events.take(n));
        lemma_run_fits_prefix(events, n);
        lemma_run_invariant(prefix);
        assert(event_fits(run(events.take(n)), events[n]));
        assert(events.last() == events[n]);
    }
}

/// Drain before status: a finished invocation's captured output is the
/// complete remote output — the concatenation of every chunk the
/// channel ever produced — and its exit code is the one status the
/// channel reported, which arrived only after the output stream had
/// ended and the channel had closed.
pub proof fn lemma_drain_before_status(events: Seq<ExecEventV>)
    requires
        run_fits(events),
        run(events) is Finished,
    ensures
        run(events)->Finished_result.captured_output == chunks_concat(events),
        statuses(events) == seq![run(events)->Finished_result.exit_code],
{
    lemma_run_invariant(events);
}

/// The status request is issued only once the drain is complete: in a
/// fitting run, an exit-status event can only arrive in the
/// status-reading state, whose output already holds every chunk that
/// was ever produced before it.
pub proof fn lemma_status_only_after_drain(events: Seq<ExecEventV>, i: int)
    requires
        run_fits(events),
        0 <= i < events.len(),
        events[i] is ExitStatus,
    ensures
        run(events.take(i)) is ReadingStatus,
        run(events.take(i))->ReadingStatus_output == chunks_concat(events.take(i)),
{
    assert(event_fits(run(events.take(i)), events[i]));
    lemma_run_fits_prefix(events, i);
    lemma_run_invariant(events.take(i));
}

/// Idempotent reporting: two invocations — on whatever sessions — whose
/// channels produced the same output and reported the same statuses
/// finish with structurally identical results.
pub proof fn lemma_idempotent_reporting(first: Seq<ExecEventV>, second: Seq<ExecEventV>)
    requires
        run_fits(first),
        run_fits(second),
        run(first) is Finished,
        run(second) is Finished,
        chunks_concat(first) == chunks_concat(second),
        statuses(first) == statuses(second),
    ensures
        run(first)->Finished_result == run(second)->Finished_result,
{
    lemma_drain_before_status(first);
    lemma_drain_before_status(second);
    assert(seq![run(first)->Finished_result.exit_code][0] == run(first)->Finished_result.exit_code);
    assert(seq![run(second)->Finished_result.exit_code][0]
        == run(second)->Finished_result.exit_code);
    assert(run(first)->Finished_result =~= run(second)->Finished_result);
}

} // verus!
