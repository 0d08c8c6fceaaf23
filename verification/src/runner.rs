//! One invocation as a state machine: the caller spawns, waits and posts,
//! and [`run`] decides what comes next.

use crate::config::{ConfigView, NtfyConfig};
use crate::notify::{
    outcome_view, send_message, spawn_alert, spawn_alert_of, summary, wait_alert, wait_alert_of,
    HeaderError, Request, RequestView,
};
use crate::text::{decode_lossy, exit_code, lossy_text, reported_code};
use vstd::prelude::*;
use vstd::utf8::{decode_utf8, valid_utf8};

verus! {

/// Why an invocation ends in failure.
#[derive(Clone, Copy, Debug, PartialEq, Eq, Structural)]
pub enum Failure {
    /// The command could not be started.
    Spawn,
    /// The end of the command could not be observed.
    Wait,
    /// The summary could not be made or delivered.
    Notification,
}

/// Where an invocation stands.
#[derive(Clone, Copy, Debug, PartialEq, Eq, Structural)]
pub enum State {
    /// Nothing has been done yet.
    Idle,
    /// The command is being started.
    Spawning,
    /// The command runs.
    Running,
    /// The alert for a fatal error is being posted.
    Alerting(Failure),
    /// The summary of the finished run is being posted.
    Summarising,
    /// The invocation has failed.
    Aborted(Failure),
    /// The command has run and its summary is delivered.
    Done,
}

impl State {
    /// How far an invocation has come: no step leads to a lower stage.
    pub open spec fn stage(self) -> nat {
        match self {
            State::Idle => 0,
            State::Spawning => 1,
            State::Running => 2,
            State::Alerting(_) => 3,
            State::Summarising => 3,
            State::Aborted(_) => 4,
            State::Done => 4,
        }
    }

    /// Whether the invocation has ended.
    pub open spec fn is_final(self) -> bool {
        self is Aborted || self is Done
    }
}

/// What the caller observed after the last action.
#[derive(Debug)]
pub enum Event {
    /// The invocation begins.
    Start,
    /// The command was started.
    Spawned,
    /// The command could not be started; `detail` is the system's error.
    SpawnFailed { detail: String },
    /// The command ended. `code` is absent where the system gave none.
    Exited { stdout: Vec<u8>, stderr: Vec<u8>, code: Option<i32> },
    /// The end of the command could not be observed.
    WaitFailed { detail: String },
    /// The request was sent and a response came back, whatever its status.
    Delivered,
    /// The request could not be sent.
    DeliveryFailed,
}

/// An event as plain values.
pub enum EventView {
    Start,
    Spawned,
    SpawnFailed { detail: Seq<char> },
    Exited { stdout: Seq<u8>, stderr: Seq<u8>, code: Option<i32> },
    WaitFailed { detail: Seq<char> },
    Delivered,
    DeliveryFailed,
}

impl View for Event {
    type V = EventView;

    open spec fn view(&self) -> EventView {
        match self {
            Event::Start => EventView::Start,
            Event::Spawned => EventView::Spawned,
            Event::SpawnFailed { detail } => EventView::SpawnFailed { detail: detail@ },
            Event::Exited { stdout, stderr, code } => EventView::Exited {
                stdout: stdout@,
                stderr: stderr@,
                code: *code,
            },
            Event::WaitFailed { detail } => EventView::WaitFailed { detail: detail@ },
            Event::Delivered => EventView::Delivered,
            Event::DeliveryFailed => EventView::DeliveryFailed,
        }
    }
}

/// What the caller is to do next.
#[derive(Debug)]
pub enum Action {
    /// Start the command, with no input and both outputs captured.
    Spawn,
    /// Wait for the command to end and collect what it printed.
    Wait,
    /// Post the request.
    Post(Request),
    /// End the invocation with success.
    Succeed,
    /// End the invocation with the failure.
    Fail(Failure),
    /// Nothing: the event does not fit the state.
    Ignore,
}

/// An action as plain values.
pub enum ActionView {
    Spawn,
    Wait,
    Post(RequestView),
    Succeed,
    Fail(Failure),
    Ignore,
}

impl View for Action {
    type V = ActionView;

    open spec fn view(&self) -> ActionView {
        match self {
            Action::Spawn => ActionView::Spawn,
            Action::Wait => ActionView::Wait,
            Action::Post(r) => ActionView::Post(r@),
            Action::Succeed => ActionView::Succeed,
            Action::Fail(f) => ActionView::Fail(*f),
            Action::Ignore => ActionView::Ignore,
        }
    }
}

/// One step: the state that follows, and what the caller is to do.
#[derive(Debug)]
pub struct Step {
    pub state: State,
    pub action: Action,
}

/// A step as plain values.
pub struct StepView {
    pub state: State,
    pub action: ActionView,
}

impl View for Step {
    type V = StepView;

    open spec fn view(&self) -> StepView {
        StepView { state: self.state, action: self.action@ }
    }
}

/// The step that announces an outcome: the request is posted in the state
/// `posting`; where it could not be made, the invocation fails at once.
pub open spec fn announcing(
    outcome: Result<RequestView, HeaderError>,
    posting: State,
    failure: Failure,
) -> StepView {
    match outcome {
        Ok(r) => StepView { state: posting, action: ActionView::Post(r) },
        Err(_) => StepView { state: State::Aborted(failure), action: ActionView::Fail(failure) },
    }
}

/// The step taken when a command has ended and its output reads as the two
/// texts.
pub open spec fn summarising(
    config: ConfigView,
    stdout: Seq<char>,
    stderr: Seq<char>,
    code: Option<i32>,
) -> StepView {
    announcing(
        summary(config, stdout, stderr, reported_code(code)),
        State::Summarising,
        Failure::Notification,
    )
}

/// The transition function. A fatal error is announced by an alert, whose
/// own fate changes nothing: the invocation fails with the first error. A
/// command that ends is summarised whatever its exit code, and the delivery
/// of the summary decides the invocation. An event that does not fit the
/// state is ignored.
pub open spec fn transition(config: ConfigView, state: State, event: EventView) -> StepView {
    match (state, event) {
        (State::Idle, EventView::Start) => StepView {
            state: State::Spawning,
            action: ActionView::Spawn,
        },
        (State::Spawning, EventView::Spawned) => StepView {
            state: State::Running,
            action: ActionView::Wait,
        },
        (State::Spawning, EventView::SpawnFailed { detail }) => announcing(
            spawn_alert_of(config, detail),
            State::Alerting(Failure::Spawn),
            Failure::Spawn,
        ),
        (State::Running, EventView::WaitFailed { detail }) => announcing(
            wait_alert_of(config, detail),
            State::Alerting(Failure::Wait),
            Failure::Wait,
        ),
        (State::Running, EventView::Exited { stdout, stderr, code }) => summarising(
            config,
            lossy_text(stdout),
            lossy_text(stderr),
            code,
        ),
        (State::Alerting(f), EventView::Delivered) => StepView {
            state: State::Aborted(f),
            action: ActionView::Fail(f),
        },
        (State::Alerting(f), EventView::DeliveryFailed) => StepView {
            state: State::Aborted(f),
            action: ActionView::Fail(f),
        },
        (State::Summarising, EventView::Delivered) => StepView {
            state: State::Done,
            action: ActionView::Succeed,
        },
        (State::Summarising, EventView::DeliveryFailed) => StepView {
            state: State::Aborted(Failure::Notification),
            action: ActionView::Fail(Failure::Notification),
        },
        _ => StepView { state, action: ActionView::Ignore },
    }
}

fn announce(outcome: Result<Request, HeaderError>, posting: State, failure: Failure) -> (step:
    Step)
    ensures
        step@ == announcing(outcome_view(outcome), posting, failure),
{
    match outcome {
        Ok(r) => Step { state: posting, action: Action::Post(r) },
        Err(_) => Step { state: State::Aborted(failure), action: Action::Fail(failure) },
    }
}

fn ignore(state: State) -> (step: Step)
    ensures
        step@ == (StepView { state, action: ActionView::Ignore }),
{
    Step { state, action: Action::Ignore }
}

/// Takes one step of an invocation: from the state and what the caller
/// observed to the next state and the next action. Captured output is
/// decoded lossily, so no output makes the step fail, and output that is
/// valid UTF-8 is reported as the text it encodes.
pub fn run(config: &NtfyConfig, state: State, event: Event) -> (step: Step)
    requires
        config.wf(),
    ensures
        step@ == transition(config@, state, event@),
        state == State::Running ==> match event@ {
            EventView::Exited { stdout, stderr, code } => valid_utf8(stdout) && valid_utf8(stderr)
                ==> step@ == summarising(config@, decode_utf8(stdout), decode_utf8(stderr), code),
            _ => true,
        },
{
    match state {
        State::Idle => match event {
            Event::Start => Step { state: State::Spawning, action: Action::Spawn },
            _ => ignore(state),
        },
        State::Spawning => match event {
            Event::Spawned => Step { state: State::Running, action: Action::Wait },
            Event::SpawnFailed { detail } => announce(
                spawn_alert(config, detail.as_str()),
                State::Alerting(Failure::Spawn),
                Failure::Spawn,
            ),
            _ => ignore(state),
        },
        State::Running => match event {
            Event::WaitFailed { detail } => announce(
                wait_alert(config, detail.as_str()),
                State::Alerting(Failure::Wait),
                Failure::Wait,
            ),
            Event::Exited { stdout, stderr, code } => {
                let out = decode_lossy(stdout.as_slice());
                let err = decode_lossy(stderr.as_slice());
                announce(
                    send_message(config, out.as_str(), err.as_str(), exit_code(code)),
                    State::Summarising,
                    Failure::Notification,
                )
            },
            _ => ignore(state),
        },
        State::Alerting(f) => match event {
            Event::Delivered => Step { state: State::Aborted(f), action: Action::Fail(f) },
            Event::DeliveryFailed => Step { state: State::Aborted(f), action: Action::Fail(f) },
            _ => ignore(state),
        },
        State::Summarising => match event {
            Event::Delivered => Step { state: State::Done, action: Action::Succeed },
            Event::DeliveryFailed => Step {
                state: State::Aborted(Failure::Notification),
                action: Action::Fail(Failure::Notification),
            },
            _ => ignore(state),
        },
        State::Aborted(_) => ignore(state),
        State::Done => ignore(state),
    }
}

} // verus!
