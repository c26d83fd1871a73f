//! A light-client sync session as a state machine.
//!
//! A session starts, runs, and ends completed or failed. While it runs,
//! three streams of messages (log, info and warning) are forwarded to a sink
//! as they arrive, and one wallet update is awaited and applied. The caller
//! owns the node, the channels and the wallet: it hands every happening to
//! `step` as an event and carries out the action that comes back.

use vstd::prelude::*;
use vstd::string::StringExecFns;
use crate::error::Error;
use crate::text::decimal_string;
use crate::text::decimal_text;

verus! {

/// The three streams of messages that a node sends.
#[derive(Clone, Copy, Debug, PartialEq, Eq, Structural)]
pub enum Source {
    /// Debug log lines.
    Log,
    /// Status information.
    Info,
    /// Warnings.
    Warning,
}

/// How loudly a message is handed to the sink.
#[derive(Clone, Copy, Debug, PartialEq, Eq, Structural)]
pub enum Level {
    /// For log lines and status information.
    Info,
    /// For warnings.
    Warn,
}

/// A message for the sink.
#[derive(Debug)]
pub struct LogLine {
    /// How loudly to report it.
    pub level: Level,
    /// The text, as it arrived.
    pub text: String,
}

/// The level at which messages of a stream are forwarded.
pub open spec fn level_of(source: Source) -> Level {
    match source {
        Source::Warning => Level::Warn,
        _ => Level::Info,
    }
}

/// What to forward when a stream yields `message`: the message itself at
/// the level of its stream, or nothing when the stream has ended.
pub fn trace_line(source: Source, message: Option<String>) -> (r: Option<LogLine>)
    ensures
        match (message, r) {
            (Some(m), Some(line)) => line.level == level_of(source) && line.text@ == m@,
            (None, None) => true,
            _ => false,
        },
{
    match message {
        Some(text) => {
            let level = match source {
                Source::Warning => Level::Warn,
                _ => Level::Info,
            };
            Some(LogLine { level, text })
        },
        None => None,
    }
}

/// What a wallet holds after a sync.
#[derive(Clone, Copy, Debug, PartialEq, Eq, Structural)]
pub struct SyncOutcome {
    /// Height of the tip of the chain.
    pub tip_height: u32,
    /// Number of transactions.
    pub transaction_count: u64,
    /// Total balance, in satoshi.
    pub balance: u64,
}

impl SyncOutcome {
    /// The text of `chain_summary`.
    pub open spec fn chain_summary_text(self) -> Seq<char> {
        "Chain tip: "@ + decimal_text(self.tip_height as nat) + ", Transactions: "@
            + decimal_text(self.transaction_count as nat) + ", Balance: "@ + decimal_text(
            self.balance as nat,
        )
    }

    /// The text of `completion_summary`.
    pub open spec fn completion_summary_text(self) -> Seq<char> {
        "Sync completed: tx_count="@ + decimal_text(self.transaction_count as nat)
            + ", balance="@ + decimal_text(self.balance as nat)
    }

    /// One line with tip, transaction count and balance.
    pub fn chain_summary(&self) -> (r: String)
        ensures
            r@ == self.chain_summary_text(),
    {
        let mut r = String::from_str("Chain tip: ");
        r.append(decimal_string(self.tip_height as u64).as_str());
        r.append(", Transactions: ");
        r.append(decimal_string(self.transaction_count).as_str());
        r.append(", Balance: ");
        r.append(decimal_string(self.balance).as_str());
        r
    }

    /// One line that reports the end of the sync.
    pub fn completion_summary(&self) -> (r: String)
        ensures
            r@ == self.completion_summary_text(),
    {
        let mut r = String::from_str("Sync completed: tx_count=");
        r.append(decimal_string(self.transaction_count).as_str());
        r.append(", balance=");
        r.append(decimal_string(self.balance).as_str());
        r
    }
}

/// Where a session stands.
#[derive(Clone, Copy, Debug, PartialEq, Eq, Structural)]
pub enum SyncState {
    /// The node has been asked to start.
    Starting,
    /// The node runs and messages are forwarded. The update is awaited
    /// until it has arrived; from then on it is being applied.
    Running { applying: bool },
    /// The update was applied.
    Completed(SyncOutcome),
    /// The session failed.
    Failed(Error),
}

/// What happened outside.
#[derive(Clone, Copy, Debug, PartialEq, Eq, Structural)]
pub enum SyncEvent {
    /// The node was asked whether it runs.
    NodeChecked { running: bool },
    /// A stream yielded a message, or ended.
    Stream(Source),
    /// The update arrived.
    UpdateArrived,
    /// The source of the update ended without an update.
    UpdateSourceClosed,
    /// The wallet took the update.
    UpdateApplied(SyncOutcome),
    /// The wallet refused the update.
    UpdateRejected,
}

/// What the caller is to do next.
#[derive(Clone, Copy, Debug, PartialEq, Eq, Structural)]
pub enum SyncAction {
    /// Nothing: go on listening.
    Wait,
    /// The node runs: listen to the streams and await the update.
    Listen,
    /// Apply the update to the wallet, in one step.
    Apply,
    /// The session is over: report how it ended.
    Report,
}

/// A state and the action that leads on from it.
#[derive(Clone, Copy, Debug, PartialEq, Eq, Structural)]
pub struct Step {
    /// The state after the event.
    pub state: SyncState,
    /// What the caller is to do.
    pub action: SyncAction,
}

/// Whether an event is a message of one of the three streams.
pub open spec fn is_stream(event: SyncEvent) -> bool {
    event is Stream
}

/// Whether a state is final.
pub open spec fn is_finished(state: SyncState) -> bool {
    state is Completed || state is Failed
}

/// The state of a session that runs and awaits its update.
pub open spec fn awaiting() -> SyncState {
    SyncState::Running { applying: false }
}

/// The transition function. Messages never change the state. The update
/// is taken once: what the wallet makes of it counts only after it has
/// arrived, and nothing that the source of the update does counts after
/// that. A session that is over stays as it ended.
pub open spec fn next(state: SyncState, event: SyncEvent) -> Step {
    match (state, event) {
        (SyncState::Starting, SyncEvent::NodeChecked { running: true }) => Step {
            state: awaiting(),
            action: SyncAction::Listen,
        },
        (SyncState::Starting, SyncEvent::NodeChecked { running: false }) => Step {
            state: SyncState::Failed(Error::NodeNotRunning),
            action: SyncAction::Report,
        },
        (SyncState::Running { applying: false }, SyncEvent::UpdateArrived) => Step {
            state: SyncState::Running { applying: true },
            action: SyncAction::Apply,
        },
        (SyncState::Running { applying: false }, SyncEvent::UpdateSourceClosed) => Step {
            state: SyncState::Failed(Error::NodeNotRunning),
            action: SyncAction::Report,
        },
        (SyncState::Running { applying: true }, SyncEvent::UpdateApplied(outcome)) => Step {
            state: SyncState::Completed(outcome),
            action: SyncAction::Report,
        },
        (SyncState::Running { applying: true }, SyncEvent::UpdateRejected) => Step {
            state: SyncState::Failed(Error::UpdateApplicationFailed),
            action: SyncAction::Report,
        },
        _ => Step { state, action: SyncAction::Wait },
    }
}

/// The state after a series of events.
pub open spec fn run(state: SyncState, events: Seq<SyncEvent>) -> SyncState
    decreases events.len(),
{
    if events.len() == 0 {
        state
    } else {
        run(next(state, events[0]).state, events.drop_first())
    }
}

/// How often a series of events asks for `action`.
pub open spec fn count(state: SyncState, events: Seq<SyncEvent>, action: SyncAction) -> nat
    decreases events.len(),
{
    if events.len() == 0 {
        0
    } else {
        let step = next(state, events[0]);
        let here: nat = if step.action == action {
            1
        } else {
            0
        };
        here + count(step.state, events.drop_first(), action)
    }
}

/// The state in which every session begins.
pub fn start() -> (s: SyncState)
    ensures
        s == SyncState::Starting,
{
    SyncState::Starting
}

/// Takes one event: gives the state that follows and the action to carry
/// out.
pub fn step(state: SyncState, event: SyncEvent) -> (r: Step)
    ensures
        r == next(state, event),
{
    match (state, event) {
        (SyncState::Starting, SyncEvent::NodeChecked { running }) => {
            if running {
                Step { state: SyncState::Running { applying: false }, action: SyncAction::Listen }
            } else {
                Step {
                    state: SyncState::Failed(Error::NodeNotRunning),
                    action: SyncAction::Report,
                }
            }
        },
        (SyncState::Running { applying }, SyncEvent::UpdateArrived) => {
            if applying {
                Step { state, action: SyncAction::Wait }
            } else {
                Step { state: SyncState::Running { applying: true }, action: SyncAction::Apply }
            }
        },
        (SyncState::Running { applying }, SyncEvent::UpdateSourceClosed) => {
            if applying {
                Step { state, action: SyncAction::Wait }
            } else {
                Step {
                    state: SyncState::Failed(Error::NodeNotRunning),
                    action: SyncAction::Report,
                }
            }
        },
        (SyncState::Running { applying }, SyncEvent::UpdateApplied(outcome)) => {
            if applying {
                Step { state: SyncState::Completed(outcome), action: SyncAction::Report }
            } else {
                Step { state, action: SyncAction::Wait }
            }
        },
        (SyncState::Running { applying }, SyncEvent::UpdateRejected) => {
            if applying {
                Step {
                    state: SyncState::Failed(Error::UpdateApplicationFailed),
                    action: SyncAction::Report,
                }
            } else {
                Step { state, action: SyncAction::Wait }
            }
        },
        _ => Step { state, action: SyncAction::Wait },
    }
}

/// How a session ended, once it is over.
pub fn outcome(state: SyncState) -> (r: Option<Result<SyncOutcome, Error>>)
    ensures
        match state {
            SyncState::Completed(o) => r == Some(Ok::<SyncOutcome, Error>(o)),
            SyncState::Failed(e) => r == Some(Err::<SyncOutcome, Error>(e)),
            _ => r is None,
        },
{
    match state {
        SyncState::Completed(o) => Some(Ok(o)),
        SyncState::Failed(e) => Some(Err(e)),
        _ => None,
    }
}

/// Messages change nothing: whatever the state, a message of a stream
/// leaves it as it is and asks for no action.
pub proof fn lemma_messages_keep_state(state: SyncState, event: SyncEvent)
    requires
        is_stream(event),
    ensures
        next(state, event) == (Step { state, action: SyncAction::Wait }),
{
}

/// A running session whose update never arrives stays running, however
/// many messages its streams send: it neither completes nor fails, and
/// nothing is reported.
pub proof fn lemma_running_until_update(events: Seq<SyncEvent>)
    requires
        forall|i: int| 0 <= i < events.len() ==> is_stream(#[trigger] events[i]),
    ensures
        run(awaiting(), events) == awaiting(),
        count(awaiting(), events, SyncAction::Report) == 0,
        count(awaiting(), events, SyncAction::Apply) == 0,
    decreases events.len(),
{
    if events.len() > 0 {
        assert(is_stream(events[0]));
        lemma_running_until_update(events.drop_first());
    }
}

/// A session that is over stays as it ended, and nothing is asked for
/// after it.
pub proof fn lemma_finished_is_final(state: SyncState, event: SyncEvent)
    requires
        is_finished(state),
    ensures
        next(state, event) == (Step { state, action: SyncAction::Wait }),
{
}

/// The update is applied at most once and the end is reported at most
/// once, whatever happens and in whatever order. Once the update is being
/// applied or the session is over, it is not applied again.
pub proof fn lemma_applied_once(state: SyncState, events: Seq<SyncEvent>)
    ensures
        count(state, events, SyncAction::Apply) <= 1,
        count(state, events, SyncAction::Report) <= 1,
        count(state, events, SyncAction::Listen) <= 1,
        state == (SyncState::Running { applying: true }) || is_finished(state) ==> count(
            state,
            events,
            SyncAction::Apply,
        ) == 0,
        is_finished(state) ==> count(state, events, SyncAction::Report) == 0,
        !(state is Starting) ==> count(state, events, SyncAction::Listen) == 0,
    decreases events.len(),
{
    if events.len() > 0 {
        lemma_applied_once(next(state, events[0]).state, events.drop_first());
    }
}

/// A session fails only for a reason: the node did not run, the source of
/// the update ended before the update arrived, or the wallet refused the
/// update. Only the last of these is a failure to apply the update.
pub proof fn lemma_failure_has_cause(state: SyncState, event: SyncEvent)
    requires
        !is_finished(state),
        next(state, event).state is Failed,
    ensures
        event == (SyncEvent::NodeChecked { running: false }) || event
            == SyncEvent::UpdateSourceClosed || event == SyncEvent::UpdateRejected,
        next(state, event).state == SyncState::Failed(Error::UpdateApplicationFailed) <==> (state
            == (SyncState::Running { applying: true }) && event == SyncEvent::UpdateRejected),
{
}

} // verus!
