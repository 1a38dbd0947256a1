//! What holds of every run of the dispatch loop.
//!
//! A [`Ledger`] is the account of a run, kept beside the processor in
//! proofs only: which requests it accepted, what became of each, which
//! completions it received and which responses it sent. [`record`] says how
//! one step adds to it, from nothing but the phase, the event and the action
//! of that step. The laws below are proved of [`run`], that is of every
//! sequence of events that a host can hand to [`Processor::step`] after
//! [`start`].
//!
//! [`Processor::step`]: crate::dispatch::Processor::step
//! [`start`]: crate::dispatch::start

use crate::dispatch::initial;
use crate::dispatch::next;
use crate::dispatch::ActionView;
use crate::dispatch::EventView;
use crate::dispatch::Phase;
use crate::dispatch::Polled;
use crate::dispatch::ProcessorView;
use crate::protocol::RequestView;
use crate::protocol::Response;
use uuid::Uuid;
use vstd::prelude::*;

verus! {

/// The account of a run, each entry in the order of the steps.
pub struct Ledger {
    /// The identifiers of the requests taken from the inbound side.
    pub accepted: Seq<Uuid>,
    /// The identifiers of the requests taken out of the batch for dispatch.
    pub dispatched: Seq<Uuid>,
    /// The identifiers of the requests that a runner took charge of.
    pub launched: Seq<Uuid>,
    /// The identifiers of the requests that the processor answered itself.
    pub refused: Seq<Uuid>,
    /// The responses taken from the completion channel.
    pub completed: Seq<Response>,
    /// The responses handed to the outbound side.
    pub sent: Seq<Response>,
}

/// A processor and the account of how it got there.
pub struct Run {
    pub state: ProcessorView,
    pub ledger: Ledger,
}

pub open spec fn empty() -> Ledger {
    Ledger {
        accepted: Seq::empty(),
        dispatched: Seq::empty(),
        launched: Seq::empty(),
        refused: Seq::empty(),
        completed: Seq::empty(),
        sent: Seq::empty(),
    }
}

/// The ledger after the step that `state` takes on `event`.
pub open spec fn record(ledger: Ledger, state: ProcessorView, event: EventView) -> Ledger {
    let outcome = next(state, event);
    Ledger {
        accepted: match (state.phase, event) {
            (Phase::Receiving, EventView::Inbound(Polled::Ready(request))) => ledger.accepted.push(
                request.identifier,
            ),
            _ => ledger.accepted,
        },
        dispatched: if outcome.state.batch.len() < state.batch.len() {
            ledger.dispatched.push(state.batch.first().identifier)
        } else {
            ledger.dispatched
        },
        launched: match (state.phase, event) {
            (Phase::Launching { identifier }, EventView::Launched(Ok(_))) => ledger.launched.push(
                identifier,
            ),
            _ => ledger.launched,
        },
        refused: match (outcome.action, event) {
            (Some(ActionView::Send(_)), EventView::Completed(_)) => ledger.refused,
            (Some(ActionView::Send(response)), _) => ledger.refused.push(response.identifier),
            _ => ledger.refused,
        },
        completed: match (state.phase, event) {
            (Phase::Collecting, EventView::Completed(Polled::Ready(response))) => {
                ledger.completed.push(response)
            },
            _ => ledger.completed,
        },
        sent: match outcome.action {
            Some(ActionView::Send(response)) => ledger.sent.push(response),
            _ => ledger.sent,
        },
    }
}

/// The processor after `events`, from the start, with its ledger.
pub open spec fn run(events: Seq<EventView>) -> Run
    decreases events.len(),
{
    if events.len() == 0 {
        Run { state: initial(), ledger: empty() }
    } else {
        let before = run(events.drop_last());
        Run {
            state: next(before.state, events.last()).state,
            ledger: record(before.ledger, before.state, events.last()),
        }
    }
}

pub open spec fn request_identifiers(requests: Seq<RequestView>) -> Seq<Uuid> {
    requests.map_values(|request: RequestView| request.identifier)
}

pub open spec fn response_identifiers(responses: Seq<Response>) -> Seq<Uuid> {
    responses.map_values(|response: Response| response.identifier)
}

pub open spec fn failures(identifiers: Seq<Uuid>) -> Seq<Response> {
    identifiers.map_values(|identifier: Uuid| Response::failure(identifier))
}

/// The request whose launch awaits the runner's verdict, if any.
pub open spec fn in_hand(phase: Phase) -> Seq<Uuid> {
    match phase {
        Phase::Launching { identifier } => seq![identifier],
        _ => Seq::empty(),
    }
}

/// Every accepted request has been dispatched or waits in the batch, in
/// the order of arrival.
pub open spec fn arrivals_accounted(run: Run) -> bool {
    run.ledger.accepted =~= run.ledger.dispatched + request_identifiers(run.state.batch)
}

/// The batch is empty outside the first half of a tick: by the time the
/// completions are drained, every accepted request has been dispatched.
pub open spec fn batch_confined(run: Run) -> bool {
    run.state.batch.len() > 0 ==> run.state.phase is Receiving || run.state.phase is Launching
        || run.state.phase is Rejecting || run.state.phase is Halted
}

/// Every dispatched request went exactly one way: a runner took it, the
/// processor refused it, or the runner's verdict is awaited.
pub open spec fn dispatches_accounted(run: Run) -> bool {
    run.ledger.dispatched.to_multiset() =~= run.ledger.launched.to_multiset().add(
        run.ledger.refused.to_multiset(),
    ).add(in_hand(run.state.phase).to_multiset())
}

/// Every response sent is a completion received or the failure of a refused
/// request, each sent once.
pub open spec fn responses_accounted(run: Run) -> bool {
    &&& run.ledger.sent.to_multiset() =~= run.ledger.completed.to_multiset().add(
        failures(run.ledger.refused).to_multiset(),
    )
    &&& response_identifiers(run.ledger.sent).to_multiset() =~= response_identifiers(
        run.ledger.completed,
    ).to_multiset().add(run.ledger.refused.to_multiset())
}

/// The books balance.
pub open spec fn balanced(run: Run) -> bool {
    &&& arrivals_accounted(run)
    &&& batch_confined(run)
    &&& dispatches_accounted(run)
    &&& responses_accounted(run)
}

/// The run one step on.
pub open spec fn step(run: Run, event: EventView) -> Run {
    Run {
        state: next(run.state, event).state,
        ledger: record(run.ledger, run.state, event),
    }
}

/// No step upsets the balance.
pub proof fn a_step_keeps_the_balance(run: Run, event: EventView)
    requires
        balanced(run),
    ensures
        balanced(step(run, event)),
{
    broadcast use vstd::seq_lib::group_to_multiset_ensures;
    broadcast use vstd::multiset::group_multiset_axioms;

    let Run { state, ledger } = run;
    let after = step(run, event);
    assert(Seq::<Uuid>::empty().to_multiset() =~= vstd::multiset::Multiset::empty());
    assert forall|identifier: Uuid| #[trigger]
        seq![identifier].to_multiset() =~= vstd::multiset::Multiset::singleton(identifier) by {
        assert(seq![identifier] =~= Seq::<Uuid>::empty().push(identifier));
    }

    if after.state.batch.len() < state.batch.len() {
        let request = state.batch.first();
        assert(after.state.batch == state.batch.drop_first());
        assert(ledger.dispatched.push(request.identifier) + request_identifiers(
            state.batch.drop_first(),
        ) =~= ledger.dispatched + request_identifiers(state.batch));
    } else if after.state.batch.len() > state.batch.len() {
        let request = after.state.batch.last();
        assert(after.state.batch == state.batch.push(request));
        assert(ledger.dispatched + request_identifiers(state.batch.push(request)) =~= (
        ledger.dispatched + request_identifiers(state.batch)).push(request.identifier));
    } else {
        assert(after.state.batch == state.batch);
    }

    match next(state, event).action {
        Some(ActionView::Send(response)) => {
            assert(response_identifiers(ledger.sent.push(response)) =~= response_identifiers(
                ledger.sent,
            ).push(response.identifier));
            if event is Completed {
                assert(response_identifiers(ledger.completed.push(response))
                    =~= response_identifiers(ledger.completed).push(response.identifier));
            } else {
                assert(response == Response::failure(response.identifier));
                assert(failures(ledger.refused.push(response.identifier)) =~= failures(
                    ledger.refused,
                ).push(response));
            }
        },
        _ => {},
    }
}

/// The books of every run balance: whatever events the host hands over,
/// in whatever order, no accepted request is lost or dispatched twice, and
/// no response is sent that is not owed.
pub proof fn every_run_is_balanced(events: Seq<EventView>)
    ensures
        balanced(run(events)),
    decreases events.len(),
{
    broadcast use vstd::seq_lib::group_to_multiset_ensures;
    broadcast use vstd::multiset::group_multiset_axioms;

    if events.len() == 0 {
        assert(request_identifiers(Seq::empty()) =~= Seq::empty());
        assert(failures(Seq::empty()) =~= Seq::empty());
        assert(response_identifiers(Seq::empty()) =~= Seq::empty());
        assert(Seq::<Uuid>::empty() + Seq::<Uuid>::empty() =~= Seq::empty());
        assert(Seq::<Uuid>::empty().to_multiset() =~= vstd::multiset::Multiset::empty());
        assert(Seq::<Response>::empty().to_multiset() =~= vstd::multiset::Multiset::empty());
    } else {
        every_run_is_balanced(events.drop_last());
        a_step_keeps_the_balance(run(events.drop_last()), events.last());
        assert(run(events) == step(run(events.drop_last()), events.last()));
    }
}

/// Nothing is under way: no request waits in the batch or for a runner's
/// verdict, and the completions received are those of the requests that the
/// runners took, one for each.
pub open spec fn settled(run: Run) -> bool {
    &&& run.state.batch.len() == 0
    &&& !(run.state.phase is Launching)
    &&& response_identifiers(run.ledger.completed).to_multiset()
        =~= run.ledger.launched.to_multiset()
}

/// Conservation, in every run and at every step of it: the responses sent,
/// together with the requests that runners hold, the request whose launch is
/// under way and the requests in the batch, are the requests accepted
/// together with the completions received, identifier by identifier and
/// each as often.
pub proof fn requests_are_conserved(events: Seq<EventView>)
    ensures
        response_identifiers(run(events).ledger.sent).to_multiset().add(
            run(events).ledger.launched.to_multiset(),
        ).add(in_hand(run(events).state.phase).to_multiset()).add(
            request_identifiers(run(events).state.batch).to_multiset(),
        ) =~= run(events).ledger.accepted.to_multiset().add(
            response_identifiers(run(events).ledger.completed).to_multiset(),
        ),
{
    broadcast use vstd::multiset::group_multiset_axioms;

    every_run_is_balanced(events);
    let Run { state, ledger } = run(events);
    vstd::seq_lib::lemma_multiset_commutative(
        ledger.dispatched,
        request_identifiers(state.batch),
    );
}

/// Exactly one response for each request: once a run has settled, the
/// responses sent bear the identifiers of the requests accepted, each
/// identifier as often as it was accepted.
pub proof fn every_request_is_answered_once(events: Seq<EventView>)
    requires
        settled(run(events)),
    ensures
        response_identifiers(run(events).ledger.sent).to_multiset()
            =~= run(events).ledger.accepted.to_multiset(),
{
    broadcast use vstd::multiset::group_multiset_axioms;
    broadcast use vstd::seq_lib::group_to_multiset_ensures;

    requests_are_conserved(events);
    let Run { state, ledger } = run(events);
    assert(request_identifiers(state.batch) =~= Seq::empty());
    assert(in_hand(state.phase) =~= Seq::empty());
    assert(Seq::<Uuid>::empty().to_multiset() =~= vstd::multiset::Multiset::empty());
    let answered = response_identifiers(ledger.sent).to_multiset();
    let taken = ledger.launched.to_multiset();
    let accepted = ledger.accepted.to_multiset();
    let nothing = vstd::multiset::Multiset::<Uuid>::empty();
    assert(answered.add(taken).add(nothing).add(nothing) =~= accepted.add(taken));
    assert forall|identifier: Uuid| answered.count(identifier) == accepted.count(identifier) by {
        assert(answered.add(taken).add(nothing).add(nothing).count(identifier) == answered.count(
            identifier,
        ) + taken.count(identifier));
        assert(accepted.add(taken).count(identifier) == accepted.count(identifier) + taken.count(
            identifier,
        ));
    }
}

/// No response before its request: the processor launches and refuses only
/// requests that it accepted.
pub proof fn nothing_is_answered_unasked(events: Seq<EventView>, identifier: Uuid)
    requires
        run(events).ledger.launched.contains(identifier) || run(events).ledger.refused.contains(
            identifier,
        ),
    ensures
        run(events).ledger.accepted.contains(identifier),
{
    broadcast use vstd::multiset::group_multiset_axioms;
    broadcast use vstd::seq_lib::group_to_multiset_ensures;

    every_run_is_balanced(events);
    let Run { state, ledger } = run(events);
    vstd::seq_lib::lemma_multiset_commutative(
        ledger.dispatched,
        request_identifiers(state.batch),
    );
    assert(ledger.dispatched.to_multiset().count(identifier) > 0);
    assert(ledger.accepted.to_multiset().count(identifier) > 0);
}

} // verus!
