use processor::dispatch::{start, Action, Event, Fatal, Polled, Processor};
use processor::protocol::{Request, Response, Runner};
use processor::runner::shell::{Shell, Signal};
use std::collections::VecDeque;
use uuid::Uuid;

/// A host without threads: the channels are queues, the clock advances by a
/// fixed cost with each action, and a launched command ends at once with the
/// exit code that its name stands for.
struct Host {
    inbound: VecDeque<Request>,
    inbound_connected: bool,
    completions: VecDeque<Response>,
    outbound: Vec<Response>,
    outbound_capacity: usize,
    launched: Vec<Uuid>,
    turned_down: Vec<Uuid>,
    clock: u64,
    cost: u64,
    slept: Vec<u64>,
    backlog_at_tick_end: Vec<usize>,
}

impl Host {
    fn new() -> Host {
        Host {
            inbound: VecDeque::new(),
            inbound_connected: true,
            completions: VecDeque::new(),
            outbound: Vec::new(),
            outbound_capacity: usize::MAX,
            launched: Vec::new(),
            turned_down: Vec::new(),
            clock: 0,
            cost: 1_000,
            slept: Vec::new(),
            backlog_at_tick_end: Vec::new(),
        }
    }

    fn submit(&mut self, identifier: u128, runner: Runner) {
        self.inbound.push_back(Request {
            identifier: Uuid::from_u128(identifier),
            job_identifier: format!("job-{}", identifier),
            runner,
        });
    }

    fn perform(&mut self, action: Action) -> Option<Event> {
        self.clock += self.cost;
        match action {
            Action::ReadClock => Some(Event::Clock(self.clock)),
            Action::PollInbound => match self.inbound.pop_front() {
                Some(request) => Some(Event::Inbound(Polled::Ready(request))),
                None if self.inbound_connected => Some(Event::Inbound(Polled::Empty)),
                None => Some(Event::Inbound(Polled::Disconnected)),
            },
            Action::Launch(request) => {
                if self.turned_down.contains(&request.identifier) {
                    return Some(Event::Launched(Err(())));
                }
                self.launched.push(request.identifier);
                let mut invocation = Shell::execute(request);
                let signals = match invocation.command().as_str() {
                    "true" => vec![Signal::Started, Signal::Exited { code: 0 }],
                    "false" => vec![Signal::Started, Signal::Exited { code: 1 }],
                    "kill" => vec![Signal::Started, Signal::Interrupted],
                    _ => vec![Signal::Unstarted],
                };
                for signal in signals {
                    if let Some(response) = invocation.advance(signal) {
                        self.completions.push_back(response);
                    }
                }
                Some(Event::Launched(Ok(())))
            },
            Action::Send(response) => {
                if self.outbound.len() < self.outbound_capacity {
                    self.outbound.push(response);
                    Some(Event::Sent(Ok(())))
                } else {
                    Some(Event::Sent(Err(())))
                }
            },
            Action::PollCompletions => match self.completions.pop_front() {
                Some(response) => Some(Event::Completed(Polled::Ready(response))),
                None => {
                    self.backlog_at_tick_end.push(self.completions.len());
                    Some(Event::Completed(Polled::Empty))
                },
            },
            Action::Sleep(nanos) => {
                self.slept.push(nanos);
                self.clock += nanos;
                Some(Event::Woke)
            },
            Action::Halt(_) => None,
        }
    }

    /// Runs the processor for `ticks` whole ticks, or until it halts.
    fn run(&mut self, processor: &mut Processor, first: Action, ticks: usize) -> Result<Action, Fatal> {
        let mut action = first;
        let mut ended = 0;
        loop {
            if let Action::Halt(fatal) = action {
                return Err(fatal);
            }
            if ended == ticks {
                return Ok(action);
            }
            let event = self.perform(action).unwrap();
            let at_end = matches!(event, Event::Completed(Polled::Empty));
            action = processor.step(event).unwrap();
            if at_end {
                ended += 1;
                let event = self.perform(action).unwrap();
                action = processor.step(event).unwrap();
                if let Action::Sleep(_) = action {
                    let event = self.perform(action).unwrap();
                    action = processor.step(event).unwrap();
                }
            }
        }
    }
}

fn shell(command: &str) -> Runner {
    Runner::Shell { command: command.to_string() }
}

fn queue() -> Runner {
    Runner::Queue {
        dsn: "amqp://guest@localhost".to_string(),
        exchange: "jobs".to_string(),
        routing_key: "default".to_string(),
    }
}

fn success(identifier: u128) -> Response {
    Response { identifier: Uuid::from_u128(identifier), result: Ok(()) }
}

fn failure(identifier: u128) -> Response {
    Response { identifier: Uuid::from_u128(identifier), result: Err(()) }
}

#[test]
fn a_command_that_exits_successfully_yields_success() {
    let mut host = Host::new();
    host.submit(0xa, shell("true"));
    let (mut processor, first) = start();
    assert!(host.run(&mut processor, first, 1).is_ok());
    assert_eq!(host.outbound, vec![success(0xa)]);
}

#[test]
fn a_command_that_exits_with_an_error_yields_failure() {
    let mut host = Host::new();
    host.submit(0xb, shell("false"));
    let (mut processor, first) = start();
    assert!(host.run(&mut processor, first, 1).is_ok());
    assert_eq!(host.outbound, vec![failure(0xb)]);
}

#[test]
fn a_queue_request_yields_failure_with_no_delay() {
    let mut host = Host::new();
    host.submit(0xc, queue());
    let (mut processor, first) = start();
    let mut action = first;
    let mut steps = 0;
    while host.outbound.is_empty() {
        let event = host.perform(action).unwrap();
        action = processor.step(event).unwrap();
        steps += 1;
    }
    // clock, the request, the empty poll, and the send itself
    assert_eq!(steps, 4);
    assert_eq!(host.outbound, vec![failure(0xc)]);
    assert!(host.launched.is_empty());
    assert!(host.completions.is_empty());
    assert!(host.slept.is_empty());
}

#[test]
fn a_command_that_cannot_run_yields_failure() {
    let mut host = Host::new();
    host.submit(1, shell("/no/such/binary"));
    host.submit(2, shell("kill"));
    let (mut processor, first) = start();
    assert!(host.run(&mut processor, first, 1).is_ok());
    assert_eq!(host.outbound, vec![failure(1), failure(2)]);
}

#[test]
fn every_request_gets_exactly_one_response() {
    let mut host = Host::new();
    host.submit(1, shell("true"));
    host.submit(2, queue());
    host.submit(3, shell("false"));
    host.submit(4, shell("true"));
    host.submit(5, queue());
    host.turned_down.push(Uuid::from_u128(4));
    let (mut processor, first) = start();
    assert!(host.run(&mut processor, first, 1).is_ok());
    // Failures of the processor's own making leave during dispatch, the
    // completions of the runners after it.
    assert_eq!(
        host.outbound,
        vec![failure(2), failure(4), failure(5), success(1), failure(3)]
    );
    assert_eq!(host.launched, vec![Uuid::from_u128(1), Uuid::from_u128(3)]);
    assert_eq!(processor.backlog(), 0);
}

#[test]
fn under_sustained_load_nothing_is_lost_or_doubled() {
    let mut host = Host::new();
    // Each action costs a millisecond, so a tick with work overruns its
    // period.
    host.cost = 1_000_000;
    let (mut processor, first) = start();
    let mut action = first;
    let mut submitted: u128 = 0;
    for _ in 0..50 {
        for _ in 0..20 {
            let runner = match submitted % 3 {
                0 => shell("true"),
                1 => shell("false"),
                _ => queue(),
            };
            host.submit(submitted, runner);
            submitted += 1;
        }
        action = host.run(&mut processor, action, 1).unwrap();
    }
    assert_eq!(submitted, 1_000);
    assert_eq!(host.outbound.len(), 1_000);
    for identifier in 0..submitted {
        let expected = if identifier % 3 == 0 { success(identifier) } else { failure(identifier) };
        let count = host.outbound.iter().filter(|response| **response == expected).count();
        assert_eq!(count, 1);
    }
    assert!(host.slept.is_empty());
    assert!(host.backlog_at_tick_end.iter().all(|left| *left == 0));
    assert!(host.completions.is_empty());
    assert_eq!(processor.backlog(), 0);
}

#[test]
fn an_idle_loop_ticks_at_the_period() {
    let mut host = Host::new();
    host.cost = 250;
    let (mut processor, first) = start();
    let begun = host.clock;
    assert!(host.run(&mut processor, first, 128).is_ok());
    assert_eq!(host.slept.len(), 128);
    // The clock is read, the two channels are polled and the clock is read
    // again: three actions fall between the two readings.
    assert!(host.slept.iter().all(|nanos| *nanos == 7_812_500 - 750));
    // Each tick lasts its period, and the two actions outside the two
    // readings of the clock besides.
    assert_eq!(host.clock - begun, 128 * (7_812_500 + 500));
    assert!(host.clock - begun >= 1_000_000_000);
}

#[test]
fn a_disconnected_inbound_side_stops_the_loop() {
    let mut host = Host::new();
    host.inbound_connected = false;
    let (mut processor, first) = start();
    assert_eq!(host.run(&mut processor, first, 10), Err(Fatal::InboundDisconnected));
    assert!(host.outbound.is_empty());
    assert!(host.slept.is_empty());
    assert_eq!(
        processor.step(Event::Inbound(Polled::Empty)),
        Ok(Action::Halt(Fatal::InboundDisconnected))
    );
}

#[test]
fn a_disconnected_outbound_side_stops_the_loop() {
    let mut host = Host::new();
    host.outbound_capacity = 1;
    host.submit(1, shell("true"));
    host.submit(2, shell("true"));
    let (mut processor, first) = start();
    assert_eq!(host.run(&mut processor, first, 10), Err(Fatal::OutboundDisconnected));
    assert_eq!(host.outbound, vec![success(1)]);
}
