//! Verified core of the event router: the background worker that consumes
//! the watcher's event channel with a bounded wait, publishes a heartbeat on
//! every tick, and starts or stops the downstream processor on the relevant
//! transitions.
//!
//! The host owns the channel, the clock and the processor; it classifies
//! each tick as a received message or a timeout, hands it to [`route_step`],
//! and performs the returned step: publish the heartbeat, run the processor
//! command, exit the drive loop when told to.

use vstd::prelude::*;

use crate::models::{ProcessState, ProcessStateView, ProcessWatcherResult};

verus! {

/// What the bounded wait on the event channel yielded this tick: the next
/// emitted state, or a timeout together with whether the watcher was still
/// alive when probed.
#[derive(Debug)]
pub enum RouterEvent {
    Message(ProcessState),
    TimedOut { watcher_running: bool },
}

/// Mathematical image of [`RouterEvent`].
pub enum RouterEventView {
    Message(ProcessStateView),
    TimedOut { watcher_running: bool },
}

impl View for RouterEvent {
    type V = RouterEventView;

    open spec fn view(&self) -> RouterEventView {
        match self {
            RouterEvent::Message(state) => RouterEventView::Message(state@),
            RouterEvent::TimedOut { watcher_running } => RouterEventView::TimedOut {
                watcher_running: *watcher_running,
            },
        }
    }
}

/// The side effect one tick asks of the downstream processor.
#[derive(Debug)]
pub enum ProcessorCommand {
    Start(String),
    Stop,
}

/// Mathematical image of [`ProcessorCommand`].
pub enum ProcessorCommandView {
    Start(Seq<char>),
    Stop,
}

impl View for ProcessorCommand {
    type V = ProcessorCommandView;

    open spec fn view(&self) -> ProcessorCommandView {
        match self {
            ProcessorCommand::Start(region) => ProcessorCommandView::Start(region@),
            ProcessorCommand::Stop => ProcessorCommandView::Stop,
        }
    }
}

impl DeepView for ProcessorCommand {
    type V = ProcessorCommandView;

    open spec fn deep_view(&self) -> ProcessorCommandView {
        self.view()
    }
}

/// Mathematical image of [`ProcessWatcherResult`].
pub struct ProcessWatcherResultView {
    pub checked_on: u64,
    pub state: ProcessStateView,
}

impl View for ProcessWatcherResult {
    type V = ProcessWatcherResultView;

    open spec fn view(&self) -> ProcessWatcherResultView {
        ProcessWatcherResultView { checked_on: self.checked_on, state: self.state@ }
    }
}

impl DeepView for ProcessWatcherResult {
    type V = ProcessWatcherResultView;

    open spec fn deep_view(&self) -> ProcessWatcherResultView {
        self.view()
    }
}

/// What one router tick does: whether the drive loop exits, the heartbeat to
/// publish (absent only on exit), and the processor command, if any.
#[derive(Debug)]
pub struct RouterStep {
    pub exit: bool,
    pub heartbeat: Option<ProcessWatcherResult>,
    pub command: Option<ProcessorCommand>,
}

/// Result of one router tick in the model: the exec step plus the displayed
/// state held afterwards.
pub struct RouterStepView {
    pub exit: bool,
    pub heartbeat: Option<ProcessWatcherResultView>,
    pub command: Option<ProcessorCommandView>,
    pub state: ProcessStateView,
}

/// The processor command a newly adopted state asks for: start with the
/// region on a listening transition, stop on a stopped transition, nothing
/// otherwise.
pub open spec fn spec_transition_command(state: ProcessStateView) -> Option<ProcessorCommandView> {
    match state {
        ProcessStateView::ProcessListening(region) => Some(ProcessorCommandView::Start(region)),
        ProcessStateView::ProcesStopped => Some(ProcessorCommandView::Stop),
        _ => None,
    }
}

/// One tick of the drive loop.  A received message is adopted as the
/// displayed state and processed; a timeout with the watcher alive is a pure
/// heartbeat tick that keeps the displayed state; a timeout with the watcher
/// gone exits without publishing.
pub open spec fn spec_route_step(
    current: ProcessStateView,
    event: RouterEventView,
    now: u64,
) -> RouterStepView {
    match event {
        RouterEventView::Message(state) => RouterStepView {
            exit: false,
            heartbeat: Some(ProcessWatcherResultView { checked_on: now, state }),
            command: spec_transition_command(state),
            state,
        },
        RouterEventView::TimedOut { watcher_running } => if watcher_running {
            RouterStepView {
                exit: false,
                heartbeat: Some(ProcessWatcherResultView { checked_on: now, state: current }),
                command: None,
                state: current,
            }
        } else {
            RouterStepView { exit: true, heartbeat: None, command: None, state: current }
        },
    }
}

/// Runs one tick of the event router over the displayed state: adopts a
/// received message, publishes a heartbeat on every non-exit tick, and
/// decides the processor side effect of the transition.
pub fn route_step(process_state: &mut ProcessState, event: RouterEvent, now: u64) -> (step:
    RouterStep)
    ensures
        ({
            let s = spec_route_step(old(process_state)@, event@, now);
            &&& final(process_state)@ == s.state
            &&& step.exit == s.exit
            &&& step.heartbeat.deep_view() == s.heartbeat
            &&& step.command.deep_view() == s.command
        }),
{
    match event {
        RouterEvent::Message(message) => {
            let command = match &message {
                ProcessState::ProcessListening(region) => Some(
                    ProcessorCommand::Start(region.clone()),
                ),
                ProcessState::ProcesStopped => Some(ProcessorCommand::Stop),
                _ => None,
            };
            *process_state = message.clone();
            RouterStep {
                exit: false,
                heartbeat: Some(ProcessWatcherResult { checked_on: now, state: message }),
                command,
            }
        },
        RouterEvent::TimedOut { watcher_running } => {
            if watcher_running {
                RouterStep {
                    exit: false,
                    heartbeat: Some(
                        ProcessWatcherResult { checked_on: now, state: process_state.clone() },
                    ),
                    command: None,
                }
            } else {
                RouterStep { exit: true, heartbeat: None, command: None }
            }
        },
    }
}

/// The heartbeats a run of the drive loop publishes, from a held displayed
/// state, for a sequence of ticks with their times: one heartbeat per tick
/// until the first exit tick, which publishes nothing and stops the run.
pub open spec fn spec_route_run(
    current: ProcessStateView,
    events: Seq<RouterEventView>,
    times: Seq<u64>,
) -> Seq<ProcessWatcherResultView>
    decreases events.len(),
{
    if events.len() == 0 {
        Seq::empty()
    } else {
        let s = spec_route_step(current, events[0], times[0]);
        if s.exit {
            Seq::empty()
        } else {
            let rest = spec_route_run(s.state, events.drop_first(), times.drop_first());
            match s.heartbeat {
                Some(h) => seq![h] + rest,
                None => rest,
            }
        }
    }
}

/// Heartbeat liveness: while the watcher stays alive (every tick delivers a
/// message or times out with the watcher still running), every tick
/// publishes exactly one heartbeat, stamped with that tick's time.
pub proof fn lemma_heartbeat_liveness(
    current: ProcessStateView,
    events: Seq<RouterEventView>,
    times: Seq<u64>,
)
    requires
        times.len() == events.len(),
        forall|i: int|
            0 <= i < events.len() ==> !(#[trigger] events[i] matches RouterEventView::TimedOut {
                watcher_running: false,
            }),
    ensures
        spec_route_run(current, events, times).len() == events.len(),
        forall|i: int|
            0 <= i < events.len() ==> #[trigger] spec_route_run(
                current,
                events,
                times,
            )[i].checked_on == times[i],
    decreases events.len(),
{
    if events.len() > 0 {
        let s = spec_route_step(current, events[0], times[0]);
        assert(!s.exit);
        lemma_heartbeat_liveness(s.state, events.drop_first(), times.drop_first());
        let run = spec_route_run(current, events, times);
        let rest = spec_route_run(s.state, events.drop_first(), times.drop_first());
        assert forall|i: int| 0 <= i < events.len() implies #[trigger] run[i].checked_on
            == times[i] by {
            if i > 0 {
                assert(rest[i - 1].checked_on == times.drop_first()[i - 1]);
            }
        }
    }
}

/// With strictly increasing tick times, the published heartbeat timestamps
/// are strictly increasing too.
pub proof fn lemma_heartbeat_timestamps_increase(
    current: ProcessStateView,
    events: Seq<RouterEventView>,
    times: Seq<u64>,
)
    requires
        times.len() == events.len(),
        forall|i: int|
            0 <= i < events.len() ==> !(#[trigger] events[i] matches RouterEventView::TimedOut {
                watcher_running: false,
            }),
        forall|i: int, j: int| 0 <= i < j < times.len() ==> #[trigger] times[i] < #[trigger] times[j],
    ensures
        forall|i: int, j: int|
            0 <= i < j < events.len() ==> #[trigger] spec_route_run(
                current,
                events,
                times,
            )[i].checked_on < #[trigger] spec_route_run(current, events, times)[j].checked_on,
{
    lemma_heartbeat_liveness(current, events, times);
}

/// A timed-out tick with the watcher alive is a pure liveness signal: it
/// publishes a heartbeat carrying the held displayed state, issues no
/// processor command, and changes nothing.
pub proof fn lemma_timeout_heartbeat_keeps_state(current: ProcessStateView, now: u64)
    ensures
        ({
            let s = spec_route_step(
                current,
                RouterEventView::TimedOut { watcher_running: true },
                now,
            );
            &&& !s.exit
            &&& s.heartbeat == Some(ProcessWatcherResultView { checked_on: now, state: current })
            &&& s.command is None
            &&& s.state == current
        }),
{
}

} // verus!
