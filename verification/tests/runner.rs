use processor::pace::{elapsed, rest, TICKS_PER_SECOND, TICK_PERIOD};
use processor::protocol::{Request, Response, Runner as RunnerSpec};
use processor::runner::shell::{Invocation, Request as ShellRequest, Shell, Signal, Stage};
use processor::runner::Runner;
use uuid::Uuid;

fn invocation(n: u128, command: &str) -> Invocation {
    Shell::execute(ShellRequest::new(Uuid::from_u128(n), "job".to_string(), command.to_string()))
}

#[test]
fn a_shell_request_is_routed_to_the_shell_runner() {
    let request = Request {
        identifier: Uuid::from_u128(42),
        job_identifier: "nightly".to_string(),
        runner: RunnerSpec::Shell { command: "make all".to_string() },
    };
    let routed = Runner::execute(&request);
    assert_eq!(
        routed,
        Ok(ShellRequest {
            identifier: Uuid::from_u128(42),
            job_identifier: "nightly".to_string(),
            command: "make all".to_string(),
        })
    );
    assert_eq!(request.job_identifier, "nightly");
}

#[test]
fn a_queue_request_is_rejected() {
    let request = Request {
        identifier: Uuid::from_u128(43),
        job_identifier: "nightly".to_string(),
        runner: RunnerSpec::Queue {
            dsn: "amqp://localhost".to_string(),
            exchange: "jobs".to_string(),
            routing_key: "default".to_string(),
        },
    };
    assert_eq!(Runner::execute(&request), Err(()));
}

#[test]
fn a_failure_bears_the_identifier_and_no_payload() {
    let identifier = Uuid::from_u128(0xa1a2a3a4b1b2c1c2d1d2d3d4d5d6d7d8);
    let response = Response::failure(identifier);
    assert_eq!(response.identifier, identifier);
    assert_eq!(response.result, Err(()));
}

#[test]
fn an_accepted_invocation_holds_its_request() {
    let invocation = invocation(5, "echo hello");
    assert_eq!(invocation.stage(), Stage::Accepted);
    assert_eq!(invocation.identifier(), Uuid::from_u128(5));
    assert_eq!(invocation.job_identifier(), "job");
    assert_eq!(invocation.command(), "echo hello");
}

#[test]
fn exit_code_zero_is_success() {
    let mut invocation = invocation(5, "true");
    assert_eq!(invocation.advance(Signal::Started), None);
    assert_eq!(invocation.stage(), Stage::Running);
    assert_eq!(
        invocation.advance(Signal::Exited { code: 0 }),
        Some(Response { identifier: Uuid::from_u128(5), result: Ok(()) })
    );
    assert_eq!(invocation.stage(), Stage::Succeeded);
}

#[test]
fn any_other_exit_code_is_failure() {
    for code in [1, 2, 127, 255, -1, i32::MIN, i32::MAX] {
        let mut invocation = invocation(6, "false");
        assert_eq!(invocation.advance(Signal::Started), None);
        assert_eq!(
            invocation.advance(Signal::Exited { code }),
            Some(Response { identifier: Uuid::from_u128(6), result: Err(()) })
        );
        assert_eq!(invocation.stage(), Stage::Failed);
    }
}

#[test]
fn a_command_that_ends_without_exit_code_is_failure() {
    let mut invocation = invocation(7, "sleep 100");
    assert_eq!(invocation.advance(Signal::Started), None);
    assert_eq!(
        invocation.advance(Signal::Interrupted),
        Some(Response { identifier: Uuid::from_u128(7), result: Err(()) })
    );
    assert_eq!(invocation.stage(), Stage::Failed);
}

#[test]
fn a_command_that_cannot_start_is_failure() {
    let mut invocation = invocation(8, "/no/such/binary");
    assert_eq!(
        invocation.advance(Signal::Unstarted),
        Some(Response { identifier: Uuid::from_u128(8), result: Err(()) })
    );
    assert_eq!(invocation.stage(), Stage::Failed);
}

#[test]
fn an_invocation_answers_once() {
    let signals = [
        Signal::Started,
        Signal::Unstarted,
        Signal::Exited { code: 0 },
        Signal::Exited { code: 3 },
        Signal::Interrupted,
    ];
    for first in signals {
        for second in signals {
            for third in signals {
                let mut invocation = invocation(9, "true");
                let mut answers = 0;
                for signal in [first, second, third, Signal::Exited { code: 0 }, Signal::Unstarted]
                {
                    if invocation.advance(signal).is_some() {
                        answers += 1;
                    }
                }
                assert_eq!(answers, 1);
                assert!(invocation.stage().is_terminal());
                assert_ne!(invocation.stage(), Stage::Rejected);
            }
        }
    }
}

#[test]
fn a_signal_that_does_not_fit_the_stage_changes_nothing() {
    let mut invocation = invocation(10, "true");
    assert_eq!(invocation.advance(Signal::Exited { code: 0 }), None);
    assert_eq!(invocation.advance(Signal::Interrupted), None);
    assert_eq!(invocation.stage(), Stage::Accepted);
    assert_eq!(invocation.advance(Signal::Started), None);
    assert_eq!(invocation.advance(Signal::Started), None);
    assert_eq!(invocation.advance(Signal::Unstarted), None);
    assert_eq!(invocation.stage(), Stage::Running);
}

#[test]
fn the_terminal_stages() {
    assert!(!Stage::Accepted.is_terminal());
    assert!(!Stage::Running.is_terminal());
    assert!(Stage::Succeeded.is_terminal());
    assert!(Stage::Failed.is_terminal());
    assert!(Stage::Rejected.is_terminal());
}

#[test]
fn the_period_is_the_128th_part_of_a_second() {
    assert_eq!(TICKS_PER_SECOND, 128);
    assert_eq!(TICK_PERIOD, 7_812_500);
    assert_eq!(TICK_PERIOD * TICKS_PER_SECOND, 1_000_000_000);
}

#[test]
fn the_rest_of_the_period() {
    assert_eq!(rest(0), Some(7_812_500));
    assert_eq!(rest(1), Some(7_812_499));
    assert_eq!(rest(4_000_000), Some(3_812_500));
    assert_eq!(rest(7_812_499), Some(1));
    assert_eq!(rest(7_812_500), None);
    assert_eq!(rest(7_812_501), None);
    assert_eq!(rest(u64::MAX), None);
}

#[test]
fn the_time_elapsed() {
    assert_eq!(elapsed(0, 0), 0);
    assert_eq!(elapsed(10, 25), 15);
    assert_eq!(elapsed(0, u64::MAX), u64::MAX);
    assert_eq!(elapsed(25, 10), 0);
    assert_eq!(elapsed(u64::MAX, 0), 0);
}
