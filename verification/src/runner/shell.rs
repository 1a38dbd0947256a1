//! The shell runner: one external command per request.
//!
//! The command itself runs on a thread of the host. What is decided here is
//! the life of one invocation: which stage follows which signal, and the
//! single response that the invocation owes when it ends.

use crate::protocol::Response;
use uuid::Uuid;
use vstd::prelude::*;

verus! {

/// What the shell runner needs of an execution request.
#[derive(Debug, PartialEq, Eq)]
pub struct Request {
    pub identifier: Uuid,
    pub job_identifier: String,
    pub command: String,
}

/// The mathematical value of a shell [`Request`].
pub struct RequestView {
    pub identifier: Uuid,
    pub job_identifier: Seq<char>,
    pub command: Seq<char>,
}

impl View for Request {
    type V = RequestView;

    open spec fn view(&self) -> RequestView {
        RequestView {
            identifier: self.identifier,
            job_identifier: self.job_identifier@,
            command: self.command@,
        }
    }
}

impl Request {
    pub fn new(identifier: Uuid, job_identifier: String, command: String) -> (request: Request)
        ensures
            request@ == (RequestView {
                identifier,
                job_identifier: job_identifier@,
                command: command@,
            }),
    {
        Request { identifier, job_identifier, command }
    }
}

/// Where one invocation of the shell runner stands.
///
/// `Succeeded`, `Failed` and `Rejected` are terminal. `Rejected` is the
/// verdict of a dispatch call that started nothing; no signal leads to it.
#[derive(Debug, Clone, Copy, PartialEq, Eq, Structural)]
pub enum Stage {
    Accepted,
    Running,
    Succeeded,
    Failed,
    Rejected,
}

/// What the host observes of the command of an invocation.
#[derive(Debug, Clone, Copy, PartialEq, Eq, Structural)]
pub enum Signal {
    /// The command is running.
    Started,
    /// The command could not be started.
    Unstarted,
    /// The command ran and left this exit code.
    Exited { code: i32 },
    /// The command ran and ended without an exit code.
    Interrupted,
}

impl Stage {
    /// No signal moves an invocation out of a terminal stage.
    pub open spec fn spec_is_terminal(self) -> bool {
        self is Succeeded || self is Failed || self is Rejected
    }

    /// The stage that follows `self` on `signal`. A signal that does not fit
    /// the stage changes nothing.
    pub open spec fn after(self, signal: Signal) -> Stage {
        match (self, signal) {
            (Stage::Accepted, Signal::Started) => Stage::Running,
            (Stage::Accepted, Signal::Unstarted) => Stage::Failed,
            (Stage::Running, Signal::Exited { code }) => if code == 0 {
                Stage::Succeeded
            } else {
                Stage::Failed
            },
            (Stage::Running, Signal::Interrupted) => Stage::Failed,
            _ => self,
        }
    }

    /// The result that an invocation reports when `signal` takes it from
    /// `self` to its end, if it does.
    pub open spec fn verdict(self, signal: Signal) -> Option<Result<(), ()>> {
        if self.spec_is_terminal() {
            None
        } else {
            match self.after(signal) {
                Stage::Succeeded => Some(Ok(())),
                Stage::Failed => Some(Err(())),
                _ => None,
            }
        }
    }

    #[verifier::when_used_as_spec(spec_is_terminal)]
    pub fn is_terminal(self) -> (terminal: bool)
        ensures
            terminal == self.spec_is_terminal(),
    {
        match self {
            Stage::Succeeded | Stage::Failed | Stage::Rejected => true,
            Stage::Accepted | Stage::Running => false,
        }
    }
}

/// One accepted request on its way through the shell runner.
///
/// An invocation is not `Clone`, and only [`Invocation::advance`] makes a
/// response from it.
#[derive(Debug)]
pub struct Invocation {
    request: Request,
    stage: Stage,
}

/// The mathematical value of an [`Invocation`].
pub struct InvocationView {
    pub request: RequestView,
    pub stage: Stage,
}

impl View for Invocation {
    type V = InvocationView;

    closed spec fn view(&self) -> InvocationView {
        InvocationView { request: self.request@, stage: self.stage }
    }
}

impl Invocation {
    pub fn identifier(&self) -> (identifier: Uuid)
        ensures
            identifier == self@.request.identifier,
    {
        self.request.identifier
    }

    pub fn job_identifier(&self) -> (job_identifier: &String)
        ensures
            job_identifier@ == self@.request.job_identifier,
    {
        &self.request.job_identifier
    }

    /// The command line that the host is to run.
    pub fn command(&self) -> (command: &String)
        ensures
            command@ == self@.request.command,
    {
        &self.request.command
    }

    pub fn stage(&self) -> (stage: Stage)
        ensures
            stage == self@.stage,
    {
        self.stage
    }

    /// Takes the invocation to the stage that follows on `signal` and gives
    /// the response that it owes, which is `Some` on the one signal that
    /// ends it and `None` on every other.
    pub fn advance(&mut self, signal: Signal) -> (response: Option<Response>)
        ensures
            final(self)@.request == old(self)@.request,
            final(self)@.stage == old(self)@.stage.after(signal),
            response == match old(self)@.stage.verdict(signal) {
                Some(result) => Some(
                    Response { identifier: old(self)@.request.identifier, result },
                ),
                None => None,
            },
    {
        let before: Stage = self.stage;
        let after: Stage = match (before, signal) {
            (Stage::Accepted, Signal::Started) => Stage::Running,
            (Stage::Accepted, Signal::Unstarted) => Stage::Failed,
            (Stage::Running, Signal::Exited { code }) => if code == 0 {
                Stage::Succeeded
            } else {
                Stage::Failed
            },
            (Stage::Running, Signal::Interrupted) => Stage::Failed,
            _ => before,
        };
        self.stage = after;
        if before.is_terminal() {
            None
        } else {
            match after {
                Stage::Succeeded => Some(
                    Response { identifier: self.request.identifier, result: Ok(()) },
                ),
                Stage::Failed => Some(Response::failure(self.request.identifier)),
                _ => None,
            }
        }
    }
}

/// The runner of shell commands.
pub struct Shell {}

impl Shell {
    /// Accepts `request`: the invocation that comes back is at
    /// [`Stage::Accepted`] and answers for the request from then on.
    pub fn execute(request: Request) -> (invocation: Invocation)
        ensures
            invocation@ == (InvocationView { request: request@, stage: Stage::Accepted }),
    {
        Invocation { request, stage: Stage::Accepted }
    }
}

/// The stage of an invocation that began at `stage` and saw `signals`, in
/// that order.
pub open spec fn course(stage: Stage, signals: Seq<Signal>) -> Stage
    decreases signals.len(),
{
    if signals.len() == 0 {
        stage
    } else {
        course(stage, signals.drop_last()).after(signals.last())
    }
}

/// The results that an invocation that began at `stage` reported on
/// `signals`, in that order.
pub open spec fn answers(stage: Stage, signals: Seq<Signal>) -> Seq<Result<(), ()>>
    decreases signals.len(),
{
    if signals.len() == 0 {
        Seq::empty()
    } else {
        let earlier = answers(stage, signals.drop_last());
        match course(stage, signals.drop_last()).verdict(signals.last()) {
            Some(result) => earlier.push(result),
            None => earlier,
        }
    }
}

/// A terminal stage is final: no signal moves the invocation or draws
/// another response from it.
pub proof fn a_terminal_stage_is_final(stage: Stage, signal: Signal)
    requires
        stage.is_terminal(),
    ensures
        stage.after(signal) == stage,
        stage.verdict(signal) is None,
{
}

/// An accepted invocation answers once: whatever signals arrive, and in
/// whatever order, it is never rejected, it has reported nothing before its
/// end and exactly one result from then on, success if and only if it
/// succeeded.
pub proof fn an_invocation_answers_once(signals: Seq<Signal>)
    ensures
        !(course(Stage::Accepted, signals) is Rejected),
        answers(Stage::Accepted, signals) == match course(Stage::Accepted, signals) {
            Stage::Succeeded => seq![Ok(())],
            Stage::Failed => seq![Err(())],
            _ => Seq::<Result<(), ()>>::empty(),
        },
    decreases signals.len(),
{
    if signals.len() > 0 {
        an_invocation_answers_once(signals.drop_last());
        assert(Seq::<Result<(), ()>>::empty().push(Ok(())) =~= seq![Ok(())]);
        assert(Seq::<Result<(), ()>>::empty().push(Err(())) =~= seq![Err(())]);
    }
}

/// A command succeeds if and only if it ran and left the exit code zero.
pub proof fn the_exit_code_decides(stage: Stage, signal: Signal)
    ensures
        stage.verdict(signal) == Some(Ok::<(), ()>(())) <==> stage is Running && signal
            == (Signal::Exited { code: 0 }),
{
}

} // verus!
