//! Runs of the acceptor: what holds of every sequence of events that the
//! machine takes, whatever the clients and the operating system do.

use crate::acceptor::{
    answer, answers, failure_of, launched, proceed, respond, step_spec, ActionView, Event, Notice,
    Rejected, State, Step, TransitionView, REQUEST_BUFFER_CAPACITY,
};
use crate::decimal::decimal_text;
use crate::endpoint::{
    configured, is_port_text, lemma_port_round_trip, parsed_port, ConfigError, EndpointView,
};
use crate::failure::{survives, Failure, Policy};
use vstd::prelude::*;

verus! {

/// The state that the machine is in after it took `events` one after another
/// from `start`, or `None` where it refused one of them.
pub open spec fn run(policy: Policy, start: State, events: Seq<Event>) -> Option<State>
    decreases events.len(),
{
    if events.len() == 0 {
        Some(start)
    } else {
        match run(policy, start, events.drop_last()) {
            Some(state) => match step_spec(policy, state, events.last()) {
                Ok(t) => Some(t.next),
                Err(_) => None,
            },
            None => None,
        }
    }
}

/// How often `event` occurs in `events`.
pub open spec fn occurrences(events: Seq<Event>, event: Event) -> nat
    decreases events.len(),
{
    if events.len() == 0 {
        0
    } else {
        occurrences(events.drop_last(), event) + if events.last() == event {
            1nat
        } else {
            0nat
        }
    }
}

/// Does the server hold an accepted connection in this state? It does while
/// it services one, and where it stopped in the middle of that.
pub open spec fn holds_connection(state: State) -> bool {
    match state {
        State::Servicing(_) => true,
        State::Stopped(failure) => failure == Failure::Read || failure == Failure::Write || failure
            == Failure::Flush,
        _ => false,
    }
}

/// The number of connections that the server holds in a state.
pub open spec fn connections_held(state: State) -> nat {
    if holds_connection(state) {
        1
    } else {
        0
    }
}

/// Is this event the failure of an operation?
pub open spec fn is_failure(event: Event) -> bool {
    event == Event::BindFailed || event == Event::AcceptFailed || event == Event::ReadFailed
        || event == Event::WriteFailed || event == Event::FlushFailed
}

/// The events of one connection after its accept: the outcome of the read,
/// the outcome of the write, a flush that went well, and the close.
pub open spec fn handler_events(read: Event, write: Event) -> Seq<Event> {
    seq![read, write, Event::Flushed, Event::Closed]
}

/// Arguments that hold no port text, or one that writes a port, give an
/// endpoint, and the server asks for the bind of exactly that endpoint: of
/// the host as it was given, a colon, and a text that writes the port. Once
/// that is bound, the server accepts.
pub proof fn lemma_configuration_is_bound_and_served(policy: Policy, args: Seq<String>)
    requires
        args.len() <= 2 || is_port_text(args[2]@),
    ensures
        configured(args) is Ok,
        launched(configured(args)->Ok_0).next == State::Binding,
        launched(configured(args)->Ok_0).action == ActionView::Bind(
            configured(args)->Ok_0.host + seq![':'] + decimal_text(
                configured(args)->Ok_0.port as nat,
            ),
        ),
        parsed_port(decimal_text(configured(args)->Ok_0.port as nat)) == Ok::<u16, ConfigError>(
            configured(args)->Ok_0.port,
        ),
        step_spec(policy, State::Binding, Event::Bound) == Ok::<TransitionView, Rejected>(
            proceed(State::Listening, ActionView::Accept),
        ),
{
    lemma_port_round_trip(configured(args)->Ok_0.port);
}

/// The machine takes every outcome of what it asked for: after the first
/// step and after every later one, whether the operation went well or
/// failed, the next step is defined. The event that reports a failure is
/// such an outcome.
pub proof fn lemma_outcomes_are_taken(
    policy: Policy,
    endpoint: EndpointView,
    state: State,
    event: Event,
    outcome: Event,
)
    ensures
        answers(launched(endpoint).action, outcome) ==> step_spec(
            policy,
            launched(endpoint).next,
            outcome,
        ) is Ok,
        step_spec(policy, state, event) matches Ok(t) ==> (answers(t.action, outcome) ==> step_spec(
            policy,
            t.next,
            outcome,
        ) is Ok),
        step_spec(policy, state, event) matches Ok(t) ==> (failure_of(t.action) matches Some(
            failed,
        ) ==> answers(t.action, failed)),
{
}

/// Connections are serviced one at a time. Over every run, the connections
/// accepted and the connections closed differ by what the server held at
/// the start and holds at the end, and it never holds more than one: from a
/// start without a connection, no second one is accepted before the first
/// is closed.
pub proof fn lemma_one_connection_at_a_time(policy: Policy, start: State, events: Seq<Event>)
    requires
        run(policy, start, events) is Some,
    ensures
        occurrences(events, Event::Accepted) + connections_held(start) == occurrences(
            events,
            Event::Closed,
        ) + connections_held(run(policy, start, events)->0),
        !holds_connection(start) ==> occurrences(events, Event::Closed) <= occurrences(
            events,
            Event::Accepted,
        ) <= occurrences(events, Event::Closed) + 1,
    decreases events.len(),
{
    if events.len() > 0 {
        lemma_one_connection_at_a_time(policy, start, events.drop_last());
    }
}

/// The machine asks for an accept only when it holds no connection, and
/// while it services a connection only the close of that connection makes
/// it ask.
pub proof fn lemma_accept_waits_for_close(policy: Policy, state: State, event: Event)
    requires
        step_spec(policy, state, event) is Ok,
        step_spec(policy, state, event)->Ok_0.action == ActionView::Accept,
    ensures
        step_spec(policy, state, event)->Ok_0.next == State::Listening,
        holds_connection(state) ==> state == State::Servicing(Step::Close) && event
            == Event::Closed,
{
}

/// While the server services a connection it takes no other: the machine
/// refuses an accepted connection in every step of the handler.
pub proof fn lemma_no_accept_while_servicing(policy: Policy, step: Step)
    ensures
        step_spec(policy, State::Servicing(step), Event::Accepted) == Err::<
            TransitionView,
            Rejected,
        >(Rejected::Unexpected),
{
}

/// The response does not depend on the request: after a read that gave any
/// number of bytes that the buffer can hold, none included, the machine asks
/// for the write of the fixed response, under either policy. Two reads
/// differ in the request that is printed and in nothing else.
pub proof fn lemma_response_whatever_was_read(policy: Policy, filled: usize, other: usize)
    requires
        filled <= REQUEST_BUFFER_CAPACITY,
        other <= REQUEST_BUFFER_CAPACITY,
    ensures
        step_spec(policy, State::Servicing(Step::Read), Event::ReadDone(filled)) == Ok::<
            TransitionView,
            Rejected,
        >(answer(filled)),
        answer(filled).next == State::Servicing(Step::Write),
        answer(filled).action == respond(),
        answer(filled).notice == Notice::Request(filled),
        answer(filled).next == answer(other).next,
        answer(filled).action == answer(other).action,
{
}

/// Every accepted connection is closed, once, and then the server listens
/// again: under the defensive policy whatever the outcome of the read and of
/// the write, under the strict policy where both went well.
pub proof fn lemma_handler_returns_to_listening(policy: Policy, read: Event, write: Event)
    requires
        read == Event::ReadFailed || (read matches Event::ReadDone(filled) && filled
            <= REQUEST_BUFFER_CAPACITY),
        write == Event::Written || write == Event::WriteFailed,
        policy == Policy::Defensive || (read != Event::ReadFailed && write != Event::WriteFailed),
    ensures
        run(policy, State::Servicing(Step::Read), handler_events(read, write)) == Some(
            State::Listening,
        ),
        occurrences(handler_events(read, write), Event::Closed) == 1,
{
    reveal_with_fuel(run, 5);
    reveal_with_fuel(occurrences, 5);
}

/// The machine stops on the failure of an operation that the policy does not
/// survive, and on nothing else.
pub proof fn lemma_stops_on_fatal_failure_only(policy: Policy, state: State, event: Event)
    requires
        step_spec(policy, state, event) is Ok,
    ensures
        step_spec(policy, state, event)->Ok_0.next is Stopped <==> is_failure(event) && (policy
            == Policy::Strict || event == Event::BindFailed || event == Event::FlushFailed),
        step_spec(policy, state, event)->Ok_0.next matches State::Stopped(failure) ==> !survives(
            policy,
            failure,
        ) && step_spec(policy, state, event)->Ok_0.action == ActionView::Abort(failure),
{
}

/// A run in which no operation fails never stops.
pub proof fn lemma_runs_on_without_failure(policy: Policy, start: State, events: Seq<Event>)
    requires
        !(start is Stopped),
        forall|i: int| 0 <= i < events.len() ==> !is_failure(#[trigger] events[i]),
        run(policy, start, events) is Some,
    ensures
        !(run(policy, start, events)->0 is Stopped),
    decreases events.len(),
{
    if events.len() > 0 {
        lemma_runs_on_without_failure(policy, start, events.drop_last());
    }
}

/// Once stopped, the machine takes no event.
pub proof fn lemma_stopped_is_final(policy: Policy, failure: Failure, events: Seq<Event>)
    requires
        events.len() > 0,
    ensures
        run(policy, State::Stopped(failure), events) is None,
    decreases events.len(),
{
    let before = events.drop_last();
    if before.len() > 0 {
        lemma_stopped_is_final(policy, failure, before);
    } else {
        assert(run(policy, State::Stopped(failure), before) == Some(State::Stopped(failure)));
    }
}

} // verus!
