//! The dispatch loop as a state machine.
//!
//! The loop alternates decisions with work that only the host can do:
//! polling a channel, launching a runner, reading the clock, sleeping. The
//! decisions are here. [`start`] gives the first [`Action`]; the host
//! performs it and hands what came of it to [`Processor::step`] as an
//! [`Event`], which answers with the next action, and so on for the life of
//! the process.
//!
//! One tick reads the clock, drains the inbound side into a batch,
//! dispatches the batch in arrival order, drains the completions of the
//! runners to the outbound side, reads the clock again and sleeps what is
//! left of the period.

use crate::pace::elapsed;
use crate::pace::rest;
use crate::pace::TICK_PERIOD;
use crate::protocol::Request;
use crate::protocol::RequestView;
use crate::protocol::Response;
use crate::runner::route;
use crate::runner::shell;
use crate::runner::Runner;
use std::collections::VecDeque;
use uuid::Uuid;
use vstd::prelude::*;

verus! {

/// What a poll of a channel that does not block found.
#[derive(Debug, PartialEq, Eq)]
pub enum Polled<T> {
    Ready(T),
    Empty,
    Disconnected,
}

/// A failure of the wiring, after which no response can reach its
/// destination. None is retried.
#[derive(Debug, Clone, Copy, PartialEq, Eq, Structural)]
pub enum Fatal {
    InboundDisconnected,
    OutboundDisconnected,
    CompletionDisconnected,
}

impl Fatal {
    /// The text that names the failed channel.
    pub open spec fn spec_message(self) -> Seq<char> {
        match self {
            Fatal::InboundDisconnected => "Execution channel disconnected: no request can arrive."@,
            Fatal::OutboundDisconnected => "Execution channel disconnected: no response can leave."@,
            Fatal::CompletionDisconnected => "Confirmation channel disconnected."@,
        }
    }

    /// The text that names the failed channel, for the host to log when it
    /// stops.
    pub fn message(self) -> (message: &'static str)
        ensures
            message@ == self.spec_message(),
    {
        match self {
            Fatal::InboundDisconnected => "Execution channel disconnected: no request can arrive.",
            Fatal::OutboundDisconnected => "Execution channel disconnected: no response can leave.",
            Fatal::CompletionDisconnected => "Confirmation channel disconnected.",
        }
    }
}

/// What the processor asks of the host.
#[derive(Debug, PartialEq, Eq)]
pub enum Action {
    /// Read the monotonic clock; answer with [`Event::Clock`].
    ReadClock,
    /// Poll the inbound side of the execution link; answer with
    /// [`Event::Inbound`].
    PollInbound,
    /// Launch the shell runner on this request; answer with
    /// [`Event::Launched`]: `Ok` where the runner took the request.
    Launch(shell::Request),
    /// Send this response on the outbound side of the execution link; answer
    /// with [`Event::Sent`]: `Err` where the link is disconnected.
    Send(Response),
    /// Poll the completion channel of the runners; answer with
    /// [`Event::Completed`].
    PollCompletions,
    /// Sleep for this many nanoseconds; answer with [`Event::Woke`].
    Sleep(u64),
    /// Stop: the wiring has failed. Nothing answers this.
    Halt(Fatal),
}

/// What came of the action that the processor last asked for.
#[derive(Debug, PartialEq, Eq)]
pub enum Event {
    /// The clock reads this many nanoseconds.
    Clock(u64),
    Inbound(Polled<Request>),
    Launched(Result<(), ()>),
    Sent(Result<(), ()>),
    Completed(Polled<Response>),
    Woke,
}

/// The event does not answer the action that the processor last asked for.
#[derive(Debug, Clone, Copy, PartialEq, Eq)]
pub struct OutOfTurn {}

/// Where in its tick the processor stands, named by what it waits for.
#[derive(Debug, Clone, Copy, PartialEq, Eq)]
pub enum Phase {
    /// For the clock, at the start of a tick.
    TickStart,
    /// For a poll of the inbound side.
    Receiving,
    /// For the runner's verdict on the request that bears `identifier`.
    Launching { identifier: Uuid },
    /// For the send of a failure that the processor made itself.
    Rejecting,
    /// For a poll of the completion channel.
    Collecting,
    /// For the send of a completion.
    Forwarding,
    /// For the clock, at the end of a tick.
    TickEnd,
    /// For the end of the sleep.
    Sleeping,
    /// For nothing: the processor has stopped.
    Halted { fatal: Fatal },
}

/// The mathematical value of an [`Action`].
pub enum ActionView {
    ReadClock,
    PollInbound,
    Launch(shell::RequestView),
    Send(Response),
    PollCompletions,
    Sleep(u64),
    Halt(Fatal),
}

/// The mathematical value of an [`Event`].
pub enum EventView {
    Clock(u64),
    Inbound(Polled<RequestView>),
    Launched(Result<(), ()>),
    Sent(Result<(), ()>),
    Completed(Polled<Response>),
    Woke,
}

impl View for Action {
    type V = ActionView;

    open spec fn view(&self) -> ActionView {
        match *self {
            Action::ReadClock => ActionView::ReadClock,
            Action::PollInbound => ActionView::PollInbound,
            Action::Launch(request) => ActionView::Launch(request@),
            Action::Send(response) => ActionView::Send(response),
            Action::PollCompletions => ActionView::PollCompletions,
            Action::Sleep(nanos) => ActionView::Sleep(nanos),
            Action::Halt(fatal) => ActionView::Halt(fatal),
        }
    }
}

impl View for Event {
    type V = EventView;

    open spec fn view(&self) -> EventView {
        match *self {
            Event::Clock(now) => EventView::Clock(now),
            Event::Inbound(Polled::Ready(request)) => EventView::Inbound(Polled::Ready(request@)),
            Event::Inbound(Polled::Empty) => EventView::Inbound(Polled::Empty),
            Event::Inbound(Polled::Disconnected) => EventView::Inbound(Polled::Disconnected),
            Event::Launched(verdict) => EventView::Launched(verdict),
            Event::Sent(delivery) => EventView::Sent(delivery),
            Event::Completed(polled) => EventView::Completed(polled),
            Event::Woke => EventView::Woke,
        }
    }
}

/// The dispatch loop between two steps.
pub struct Processor {
    phase: Phase,
    tick_start: u64,
    batch: VecDeque<Request>,
}

/// The mathematical value of a [`Processor`].
pub struct ProcessorView {
    pub phase: Phase,
    /// The clock at the start of the tick under way.
    pub tick_start: u64,
    /// The requests accepted in this tick and not yet dispatched, oldest
    /// first.
    pub batch: Seq<RequestView>,
}

/// A state and the action asked for on reaching it; `None` where the event
/// was out of turn.
pub struct Outcome {
    pub state: ProcessorView,
    pub action: Option<ActionView>,
}

/// The state before the first tick.
pub open spec fn initial() -> ProcessorView {
    ProcessorView { phase: Phase::TickStart, tick_start: 0, batch: Seq::empty() }
}

/// The processor stops on `fatal`.
pub open spec fn halt(state: ProcessorView, fatal: Fatal) -> Outcome {
    Outcome {
        state: ProcessorView { phase: Phase::Halted { fatal }, ..state },
        action: Some(ActionView::Halt(fatal)),
    }
}

/// The processor turns to the oldest request of the batch: it launches the
/// runner that the request is routed to, or answers at once with a failure
/// where there is none. With the batch empty it turns to the completions.
pub open spec fn dispatch(state: ProcessorView) -> Outcome {
    if state.batch.len() == 0 {
        Outcome {
            state: ProcessorView { phase: Phase::Collecting, ..state },
            action: Some(ActionView::PollCompletions),
        }
    } else {
        let request = state.batch.first();
        let batch = state.batch.drop_first();
        match route(request) {
            Some(launch) => Outcome {
                state: ProcessorView {
                    phase: Phase::Launching { identifier: request.identifier },
                    batch,
                    ..state
                },
                action: Some(ActionView::Launch(launch)),
            },
            None => Outcome {
                state: ProcessorView { phase: Phase::Rejecting, batch, ..state },
                action: Some(ActionView::Send(Response::failure(request.identifier))),
            },
        }
    }
}

/// The tick ends at `now`: the processor sleeps what is left of the period,
/// or starts the next tick at once where nothing is left.
pub open spec fn end_tick(state: ProcessorView, now: u64) -> Outcome {
    match rest(elapsed(state.tick_start, now)) {
        Some(nanos) => Outcome {
            state: ProcessorView { phase: Phase::Sleeping, ..state },
            action: Some(ActionView::Sleep(nanos)),
        },
        None => Outcome {
            state: ProcessorView { phase: Phase::TickStart, ..state },
            action: Some(ActionView::ReadClock),
        },
    }
}

/// The transition function of the dispatch loop.
pub open spec fn next(state: ProcessorView, event: EventView) -> Outcome {
    match (state.phase, event) {
        (Phase::Halted { fatal }, _) => Outcome { state, action: Some(ActionView::Halt(fatal)) },
        (Phase::TickStart, EventView::Clock(now)) => Outcome {
            state: ProcessorView { phase: Phase::Receiving, tick_start: now, ..state },
            action: Some(ActionView::PollInbound),
        },
        (Phase::Receiving, EventView::Inbound(Polled::Ready(request))) => Outcome {
            state: ProcessorView { batch: state.batch.push(request), ..state },
            action: Some(ActionView::PollInbound),
        },
        (Phase::Receiving, EventView::Inbound(Polled::Empty)) => dispatch(state),
        (Phase::Receiving, EventView::Inbound(Polled::Disconnected)) => halt(
            state,
            Fatal::InboundDisconnected,
        ),
        (Phase::Launching { identifier }, EventView::Launched(Ok(_))) => dispatch(state),
        (Phase::Launching { identifier }, EventView::Launched(Err(_))) => Outcome {
            state: ProcessorView { phase: Phase::Rejecting, ..state },
            action: Some(ActionView::Send(Response::failure(identifier))),
        },
        (Phase::Rejecting, EventView::Sent(Ok(_))) => dispatch(state),
        (Phase::Rejecting, EventView::Sent(Err(_))) => halt(state, Fatal::OutboundDisconnected),
        (Phase::Collecting, EventView::Completed(Polled::Ready(response))) => Outcome {
            state: ProcessorView { phase: Phase::Forwarding, ..state },
            action: Some(ActionView::Send(response)),
        },
        (Phase::Collecting, EventView::Completed(Polled::Empty)) => Outcome {
            state: ProcessorView { phase: Phase::TickEnd, ..state },
            action: Some(ActionView::ReadClock),
        },
        (Phase::Collecting, EventView::Completed(Polled::Disconnected)) => halt(
            state,
            Fatal::CompletionDisconnected,
        ),
        (Phase::Forwarding, EventView::Sent(Ok(_))) => Outcome {
            state: ProcessorView { phase: Phase::Collecting, ..state },
            action: Some(ActionView::PollCompletions),
        },
        (Phase::Forwarding, EventView::Sent(Err(_))) => halt(state, Fatal::OutboundDisconnected),
        (Phase::TickEnd, EventView::Clock(now)) => end_tick(state, now),
        (Phase::Sleeping, EventView::Woke) => Outcome {
            state: ProcessorView { phase: Phase::TickStart, ..state },
            action: Some(ActionView::ReadClock),
        },
        _ => Outcome { state, action: None },
    }
}

/// Whether `event` is what the host hands back for `action`. Nothing is
/// handed back for a halt, so every event counts.
pub open spec fn answers(action: ActionView, event: EventView) -> bool {
    match action {
        ActionView::ReadClock => event is Clock,
        ActionView::PollInbound => event is Inbound,
        ActionView::Launch(_) => event is Launched,
        ActionView::Send(_) => event is Sent,
        ActionView::PollCompletions => event is Completed,
        ActionView::Sleep(_) => event is Woke,
        ActionView::Halt(_) => true,
    }
}

/// What is left to do before the batch is dispatched: two steps at most for
/// each request in it, and those of the request under way.
pub open spec fn dispatch_measure(state: ProcessorView) -> nat {
    2 * state.batch.len() + match state.phase {
        Phase::Launching { .. } => 2nat,
        Phase::Rejecting => 1nat,
        _ => 0nat,
    }
}

/// A host that answers each action with what came of it is never out of
/// turn: the first action is answered by a reading of the clock, and the
/// action of every step by the event that answers it.
pub proof fn an_answer_is_in_turn(state: ProcessorView, event: EventView, answer: EventView)
    ensures
        next(initial(), EventView::Clock(0)).action is Some,
        next(state, event).action matches Some(action) && answers(action, answer) ==> next(
            next(state, event).state,
            answer,
        ).action is Some,
{
}

/// Dispatch ends: each answer of the host, short of a disconnection, brings
/// the processor nearer to the end of its batch, or to the completions when
/// the batch is done.
pub proof fn dispatch_makes_progress(state: ProcessorView, event: EventView)
    requires
        state.phase is Launching && event is Launched || state.phase is Rejecting && event
            == EventView::Sent(Ok(())),
    ensures
        dispatch_measure(next(state, event).state) < dispatch_measure(state),
        next(state, event).state.phase is Launching || next(state, event).state.phase
            is Rejecting || (next(state, event).state.phase is Collecting && next(
            state,
            event,
        ).state.batch.len() == 0),
{
}

/// A request whose variant has no runner is answered at once: taking it out
/// of the batch is the sending of its failure. Nothing is launched, and
/// nothing of the processor changes but the phase and the batch.
pub proof fn no_runner_fails_at_once(state: ProcessorView, request: RequestView)
    requires
        state.batch.len() > 0,
        state.batch.first() == request,
        !(request.runner is Shell),
    ensures
        dispatch(state).action == Some(ActionView::Send(Response::failure(request.identifier))),
        dispatch(state).state == (ProcessorView {
            phase: Phase::Rejecting,
            batch: state.batch.drop_first(),
            ..state
        }),
{
}

/// A shell request is handed to the shell runner with its own identifier,
/// job and command, and the processor sends nothing for it unless the
/// runner turns it down.
pub proof fn a_shell_request_is_launched(state: ProcessorView, request: RequestView)
    requires
        state.batch.len() > 0,
        state.batch.first() == request,
        request.runner is Shell,
    ensures
        dispatch(state).action == Some(
            ActionView::Launch(
                shell::RequestView {
                    identifier: request.identifier,
                    job_identifier: request.job_identifier,
                    command: request.runner->command,
                },
            ),
        ),
        dispatch(state).state.phase == (Phase::Launching { identifier: request.identifier }),
        next(dispatch(state).state, EventView::Launched(Ok(()))).action == dispatch(
            dispatch(state).state,
        ).action,
        next(dispatch(state).state, EventView::Launched(Err(()))).action == Some(
            ActionView::Send(Response::failure(request.identifier)),
        ),
{
}

/// Both drains are exhaustive. While the inbound side has a request ready
/// the processor polls it again, and no request is dispatched before a poll
/// found it empty. While a completion is ready the processor forwards it
/// unchanged and polls again, and no tick ends before a poll found the
/// completion channel empty.
pub proof fn drains_are_exhaustive(
    state: ProcessorView,
    event: EventView,
    request: RequestView,
    response: Response,
)
    ensures
        state.phase is Receiving && event == EventView::Inbound(Polled::Ready(request)) ==> next(
            state,
            event,
        ).state.phase is Receiving && next(state, event).action == Some(ActionView::PollInbound),
        state.phase is Receiving && next(state, event).state.batch.len() < state.batch.len()
            ==> event == EventView::Inbound(Polled::<RequestView>::Empty),
        state.phase is Collecting && event == EventView::Completed(Polled::Ready(response))
            ==> next(state, event).action == Some(ActionView::Send(response)) && next(
            next(state, event).state,
            EventView::Sent(Ok(())),
        ).action == Some(ActionView::PollCompletions),
        !(state.phase is TickEnd) && next(state, event).state.phase is TickEnd ==> state.phase
            is Collecting && event == EventView::Completed(Polled::<Response>::Empty),
{
}

/// The rate cap. A tick that ends before its period is over sleeps exactly
/// what is left of it, so that work and sleep together last the period; a
/// tick that used its period up starts the next one with no sleep.
pub proof fn the_rate_is_capped(state: ProcessorView, now: u64)
    requires
        state.phase is TickEnd,
    ensures
        elapsed(state.tick_start, now) < TICK_PERIOD ==> next(
            state,
            EventView::Clock(now),
        ).action == Some(
            ActionView::Sleep((TICK_PERIOD - elapsed(state.tick_start, now)) as u64),
        ) && next(state, EventView::Clock(now)).state.phase is Sleeping,
        elapsed(state.tick_start, now) >= TICK_PERIOD ==> next(
            state,
            EventView::Clock(now),
        ).action == Some(ActionView::ReadClock) && next(
            state,
            EventView::Clock(now),
        ).state.phase is TickStart,
{
}

/// A disconnected channel stops the processor at once, whichever it is, and
/// the action names it.
pub proof fn a_disconnection_halts(state: ProcessorView)
    ensures
        state.phase is Receiving ==> next(
            state,
            EventView::Inbound(Polled::Disconnected),
        ).action == Some(ActionView::Halt(Fatal::InboundDisconnected)),
        state.phase is Collecting ==> next(
            state,
            EventView::Completed(Polled::Disconnected),
        ).action == Some(ActionView::Halt(Fatal::CompletionDisconnected)),
        state.phase is Rejecting || state.phase is Forwarding ==> next(
            state,
            EventView::Sent(Err(())),
        ).action == Some(ActionView::Halt(Fatal::OutboundDisconnected)),
{
}

/// The processor halts for good: an action to halt leaves it halted, and a
/// halted processor answers every event with the same halt and stays as it
/// is.
pub proof fn a_halt_is_final(state: ProcessorView, event: EventView, later: EventView)
    ensures
        next(state, event).action matches Some(ActionView::Halt(fatal)) ==> {
            let halted = next(state, event).state;
            &&& halted.phase == (Phase::Halted { fatal })
            &&& next(halted, later).state == halted
            &&& next(halted, later).action == Some(ActionView::Halt(fatal))
        },
{
}

impl View for Processor {
    type V = ProcessorView;

    closed spec fn view(&self) -> ProcessorView {
        ProcessorView {
            phase: self.phase,
            tick_start: self.tick_start,
            batch: self.batch@.map_values(|request: Request| request@),
        }
    }
}

/// Starts the processor: the state before the first tick, and the first
/// action to perform.
pub fn start() -> (started: (Processor, Action))
    ensures
        started.0@ == initial(),
        started.1@ == ActionView::ReadClock,
{
    let processor = Processor { phase: Phase::TickStart, tick_start: 0, batch: VecDeque::new() };
    assert(processor@.batch =~= Seq::empty());
    (processor, Action::ReadClock)
}

impl Processor {
    pub fn phase(&self) -> (phase: Phase)
        ensures
            phase == self@.phase,
    {
        self.phase
    }

    /// The number of requests accepted in this tick and not yet dispatched.
    pub fn backlog(&self) -> (count: usize)
        ensures
            count == self@.batch.len(),
    {
        self.batch.len()
    }

    fn halt(&mut self, fatal: Fatal) -> (action: Action)
        ensures
            final(self)@ == halt(old(self)@, fatal).state,
            Some(action@) == halt(old(self)@, fatal).action,
    {
        self.phase = Phase::Halted { fatal };
        Action::Halt(fatal)
    }

    fn dispatch(&mut self) -> (action: Action)
        ensures
            final(self)@ == dispatch(old(self)@).state,
            Some(action@) == dispatch(old(self)@).action,
    {
        let ghost before = self.batch@;
        match self.batch.pop_front() {
            None => {
                self.phase = Phase::Collecting;
                Action::PollCompletions
            },
            Some(request) => {
                proof {
                    let value = |request: Request| request@;
                    assert(before.map_values(value).first() == request@);
                    assert(self.batch@.map_values(value) =~= before.map_values(
                        value,
                    ).drop_first());
                }
                match Runner::execute(&request) {
                    Ok(launch) => {
                        self.phase = Phase::Launching { identifier: request.identifier };
                        Action::Launch(launch)
                    },
                    Err(_) => {
                        self.phase = Phase::Rejecting;
                        Action::Send(Response::failure(request.identifier))
                    },
                }
            },
        }
    }

    /// Takes what came of the last action and answers with the next one, as
    /// [`next`] says. An event that does not answer the last action is
    /// refused with `Err`, and the processor stays as it was.
    pub fn step(&mut self, event: Event) -> (answer: Result<Action, OutOfTurn>)
        ensures
            match next(old(self)@, event@).action {
                Some(action) => answer matches Ok(a) && a@ == action,
                None => answer is Err,
            },
            final(self)@ == next(old(self)@, event@).state,
    {
        match (self.phase, event) {
            (Phase::Halted { fatal }, _) => Ok(Action::Halt(fatal)),
            (Phase::TickStart, Event::Clock(now)) => {
                self.tick_start = now;
                self.phase = Phase::Receiving;
                Ok(Action::PollInbound)
            },
            (Phase::Receiving, Event::Inbound(Polled::Ready(request))) => {
                proof {
                    let value = |request: Request| request@;
                    assert(self.batch@.push(request).map_values(value) =~= self.batch@.map_values(
                        value,
                    ).push(request@));
                }
                self.batch.push_back(request);
                Ok(Action::PollInbound)
            },
            (Phase::Receiving, Event::Inbound(Polled::Empty)) => Ok(self.dispatch()),
            (Phase::Receiving, Event::Inbound(Polled::Disconnected)) => Ok(
                self.halt(Fatal::InboundDisconnected),
            ),
            (Phase::Launching { identifier }, Event::Launched(Ok(_))) => Ok(self.dispatch()),
            (Phase::Launching { identifier }, Event::Launched(Err(_))) => {
                self.phase = Phase::Rejecting;
                Ok(Action::Send(Response::failure(identifier)))
            },
            (Phase::Rejecting, Event::Sent(Ok(_))) => Ok(self.dispatch()),
            (Phase::Rejecting, Event::Sent(Err(_))) => Ok(self.halt(Fatal::OutboundDisconnected)),
            (Phase::Collecting, Event::Completed(Polled::Ready(response))) => {
                self.phase = Phase::Forwarding;
                Ok(Action::Send(response))
            },
            (Phase::Collecting, Event::Completed(Polled::Empty)) => {
                self.phase = Phase::TickEnd;
                Ok(Action::ReadClock)
            },
            (Phase::Collecting, Event::Completed(Polled::Disconnected)) => Ok(
                self.halt(Fatal::CompletionDisconnected),
            ),
            (Phase::Forwarding, Event::Sent(Ok(_))) => {
                self.phase = Phase::Collecting;
                Ok(Action::PollCompletions)
            },
            (Phase::Forwarding, Event::Sent(Err(_))) => Ok(self.halt(Fatal::OutboundDisconnected)),
            (Phase::TickEnd, Event::Clock(now)) => {
                match rest(elapsed(self.tick_start, now)) {
                    Some(nanos) => {
                        self.phase = Phase::Sleeping;
                        Ok(Action::Sleep(nanos))
                    },
                    None => {
                        self.phase = Phase::TickStart;
                        Ok(Action::ReadClock)
                    },
                }
            },
            (Phase::Sleeping, Event::Woke) => {
                self.phase = Phase::TickStart;
                Ok(Action::ReadClock)
            },
            _ => Err(OutOfTurn {}),
        }
    }
}

} // verus!
