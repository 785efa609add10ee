//! The connection acceptor as a machine: from the state it is in and the
//! outcome of what it last asked for, to the next state and the next thing
//! to do. Whoever drives it binds, accepts, reads, writes, flushes and closes;
//! the machine decides.
//!
//! While it runs the server is in one of two conditions: it listens, or it
//! services the one connection that it accepted. Before that stands the bind,
//! and the only end is the stop after a failure that the policy does not
//! survive.

use crate::endpoint::{address_text, configure, configured, ConfigError, Endpoint, EndpointView};
use crate::failure::{classify, survives, Failure, Policy, Severity};
use crate::response::{fixed_response, response_text, BODY};
use vstd::prelude::*;

verus! {

/// The number of bytes that the request buffer holds. One read is made into
/// it for each connection, and what a client sends beyond is never looked at.
pub const REQUEST_BUFFER_CAPACITY: usize = 1024;

/// What the handler of a connection waits for.
#[derive(Clone, Copy, Debug, PartialEq, Eq, Structural)]
pub enum Step {
    /// The one read of the request.
    Read,
    /// The write of the whole response.
    Write,
    /// The flush of the output.
    Flush,
    /// The close of the connection, with which the handler returns.
    Close,
}

/// The state of the acceptor.
#[derive(Clone, Copy, Debug, PartialEq, Eq, Structural)]
pub enum State {
    /// The address is being bound.
    Binding,
    /// The server waits for a client.
    Listening,
    /// The server services the connection that it accepted.
    Servicing(Step),
    /// The process ends, after this failure.
    Stopped(Failure),
}

/// The outcome of what the machine last asked for.
#[derive(Clone, Copy, Debug, PartialEq, Eq, Structural)]
pub enum Event {
    /// The address is bound.
    Bound,
    /// The address could not be bound.
    BindFailed,
    /// A client connected.
    Accepted,
    /// The accept failed.
    AcceptFailed,
    /// The read ended after this many bytes.
    ReadDone(usize),
    /// The read failed.
    ReadFailed,
    /// The whole response is written.
    Written,
    /// The write failed.
    WriteFailed,
    /// The output is flushed.
    Flushed,
    /// The flush failed.
    FlushFailed,
    /// The connection is closed.
    Closed,
}

/// What the machine asks for next.
#[derive(Debug, PartialEq, Eq)]
pub enum Action {
    /// Bind the listening socket to this address.
    Bind(String),
    /// Wait for a client and accept its connection.
    Accept,
    /// Read once from the connection, at most this many bytes.
    Read(usize),
    /// Write all of this text to the connection.
    Write(String),
    /// Flush the connection's output.
    Flush,
    /// Close the connection.
    Close,
    /// End the process with a diagnostic for this failure.
    Abort(Failure),
}

/// An action, with its text as a sequence of characters.
pub enum ActionView {
    Bind(Seq<char>),
    Accept,
    Read(usize),
    Write(Seq<char>),
    Flush,
    Close,
    Abort(Failure),
}

impl View for Action {
    type V = ActionView;

    open spec fn view(&self) -> ActionView {
        match self {
            Action::Bind(address) => ActionView::Bind(address@),
            Action::Accept => ActionView::Accept,
            Action::Read(capacity) => ActionView::Read(*capacity),
            Action::Write(text) => ActionView::Write(text@),
            Action::Flush => ActionView::Flush,
            Action::Close => ActionView::Close,
            Action::Abort(failure) => ActionView::Abort(*failure),
        }
    }
}

/// What a step gives to print.
#[derive(Clone, Copy, Debug, PartialEq, Eq, Structural)]
pub enum Notice {
    /// Nothing.
    Silent,
    /// The request: the text of the bytes that the read gave, this many
    /// from the start of the buffer.
    Request(usize),
    /// The failure that the server survived.
    Survived(Failure),
}

/// One step of the machine: the state it enters, what it asks for, and what
/// it gives to print on the way.
#[derive(Debug, PartialEq, Eq)]
pub struct Transition {
    pub next: State,
    pub action: Action,
    pub notice: Notice,
}

/// A transition, with its action's text as a sequence of characters.
pub struct TransitionView {
    pub next: State,
    pub action: ActionView,
    pub notice: Notice,
}

impl View for Transition {
    type V = TransitionView;

    open spec fn view(&self) -> TransitionView {
        TransitionView { next: self.next, action: self.action@, notice: self.notice }
    }
}

/// Why the machine took no step.
#[derive(Clone, Copy, Debug, PartialEq, Eq, Structural)]
pub enum Rejected {
    /// The machine has stopped.
    Stopped,
    /// The event is not an outcome of what the machine asked for.
    Unexpected,
    /// The read is said to have given more bytes than the buffer holds.
    Oversized,
}

/// The step after an operation that went well and leaves nothing to print.
pub open spec fn proceed(next: State, action: ActionView) -> TransitionView {
    TransitionView { next, action, notice: Notice::Silent }
}

/// The step after the read of a request: the request is printed and the
/// fixed response is written, whatever the request holds.
pub open spec fn answer(filled: usize) -> TransitionView {
    TransitionView {
        next: State::Servicing(Step::Write),
        action: respond(),
        notice: Notice::Request(filled),
    }
}

/// The step after an operation that failed: where the policy survives the
/// failure it is reported and the machine goes on as if the operation had
/// gone well, and where it does not the machine stops.
pub open spec fn recover_or_stop(
    policy: Policy,
    failure: Failure,
    next: State,
    action: ActionView,
) -> TransitionView {
    if survives(policy, failure) {
        TransitionView { next, action, notice: Notice::Survived(failure) }
    } else {
        TransitionView {
            next: State::Stopped(failure),
            action: ActionView::Abort(failure),
            notice: Notice::Silent,
        }
    }
}

/// The write of the fixed response, which follows the read whatever it gave.
pub open spec fn respond() -> ActionView {
    ActionView::Write(response_text(BODY@))
}

/// The step that the machine takes from `state` on `event`, or why it takes
/// none.
pub open spec fn step_spec(policy: Policy, state: State, event: Event) -> Result<
    TransitionView,
    Rejected,
> {
    match (state, event) {
        (State::Stopped(_), _) => Err(Rejected::Stopped),
        (State::Binding, Event::Bound) => Ok(proceed(State::Listening, ActionView::Accept)),
        (State::Binding, Event::BindFailed) => Ok(
            recover_or_stop(policy, Failure::Bind, State::Listening, ActionView::Accept),
        ),
        (State::Listening, Event::Accepted) => Ok(
            proceed(State::Servicing(Step::Read), ActionView::Read(REQUEST_BUFFER_CAPACITY)),
        ),
        (State::Listening, Event::AcceptFailed) => Ok(
            recover_or_stop(policy, Failure::Accept, State::Listening, ActionView::Accept),
        ),
        (State::Servicing(Step::Read), Event::ReadDone(filled)) => if filled
            <= REQUEST_BUFFER_CAPACITY {
            Ok(answer(filled))
        } else {
            Err(Rejected::Oversized)
        },
        (State::Servicing(Step::Read), Event::ReadFailed) => Ok(
            recover_or_stop(policy, Failure::Read, State::Servicing(Step::Write), respond()),
        ),
        (State::Servicing(Step::Write), Event::Written) => Ok(
            proceed(State::Servicing(Step::Flush), ActionView::Flush),
        ),
        (State::Servicing(Step::Write), Event::WriteFailed) => Ok(
            recover_or_stop(
                policy,
                Failure::Write,
                State::Servicing(Step::Flush),
                ActionView::Flush,
            ),
        ),
        (State::Servicing(Step::Flush), Event::Flushed) => Ok(
            proceed(State::Servicing(Step::Close), ActionView::Close),
        ),
        (State::Servicing(Step::Flush), Event::FlushFailed) => Ok(
            recover_or_stop(
                policy,
                Failure::Flush,
                State::Servicing(Step::Close),
                ActionView::Close,
            ),
        ),
        (State::Servicing(Step::Close), Event::Closed) => Ok(
            proceed(State::Listening, ActionView::Accept),
        ),
        _ => Err(Rejected::Unexpected),
    }
}

/// Is `event` an outcome of what `action` asks for? Each operation goes well
/// or fails; a read that goes well gives no more bytes than it was asked
/// for; a close does not fail, and after an abort nothing comes.
pub open spec fn answers(action: ActionView, event: Event) -> bool {
    match action {
        ActionView::Bind(_) => event == Event::Bound || event == Event::BindFailed,
        ActionView::Accept => event == Event::Accepted || event == Event::AcceptFailed,
        ActionView::Read(capacity) => event == Event::ReadFailed || (event matches Event::ReadDone(
            filled,
        ) && filled <= capacity),
        ActionView::Write(_) => event == Event::Written || event == Event::WriteFailed,
        ActionView::Flush => event == Event::Flushed || event == Event::FlushFailed,
        ActionView::Close => event == Event::Closed,
        ActionView::Abort(_) => false,
    }
}

/// The event that says that what `action` asked for has failed, where it can
/// fail.
pub open spec fn failure_of(action: ActionView) -> Option<Event> {
    match action {
        ActionView::Bind(_) => Some(Event::BindFailed),
        ActionView::Accept => Some(Event::AcceptFailed),
        ActionView::Read(_) => Some(Event::ReadFailed),
        ActionView::Write(_) => Some(Event::WriteFailed),
        ActionView::Flush => Some(Event::FlushFailed),
        ActionView::Close => None,
        ActionView::Abort(_) => None,
    }
}

/// The first step of a server for `endpoint`: to bind its address.
pub open spec fn launched(endpoint: EndpointView) -> TransitionView {
    proceed(State::Binding, ActionView::Bind(address_text(endpoint)))
}

/// The transition after an operation that went well.
fn go_on(next: State, action: Action) -> (t: Transition)
    ensures
        t@ == proceed(next, action@),
{
    Transition { next, action, notice: Notice::Silent }
}

/// The transition after an operation that failed.
fn settle(policy: Policy, failure: Failure, next: State, action: Action) -> (t: Transition)
    ensures
        t@ == recover_or_stop(policy, failure, next, action@),
{
    match classify(policy, failure) {
        Severity::Recoverable => Transition { next, action, notice: Notice::Survived(failure) },
        _ => Transition {
            next: State::Stopped(failure),
            action: Action::Abort(failure),
            notice: Notice::Silent,
        },
    }
}

/// The event to hand to the machine where what `action` asked for has
/// failed; `None` for a close and for an abort, which do not fail.
pub fn failure_event(action: &Action) -> (r: Option<Event>)
    ensures
        r == failure_of(action@),
{
    match action {
        Action::Bind(_) => Some(Event::BindFailed),
        Action::Accept => Some(Event::AcceptFailed),
        Action::Read(_) => Some(Event::ReadFailed),
        Action::Write(_) => Some(Event::WriteFailed),
        Action::Flush => Some(Event::FlushFailed),
        Action::Close => None,
        Action::Abort(_) => None,
    }
}

/// Starts the machine for an endpoint: it asks for the bind of the
/// endpoint's address and waits for the outcome.
pub fn launch(endpoint: &Endpoint) -> (t: Transition)
    ensures
        t@ == launched(endpoint@),
{
    go_on(State::Binding, Action::Bind(endpoint.address()))
}

/// Reads the endpoint from the arguments of the process and starts the
/// machine for it. Where the port text writes no port there is no machine
/// and nothing is bound.
pub fn startup(args: &[String]) -> (r: Result<Transition, ConfigError>)
    ensures
        match r {
            Ok(t) => configured(args@) matches Ok(endpoint) && t@ == launched(endpoint),
            Err(error) => configured(args@) == Err::<EndpointView, ConfigError>(error),
        },
{
    match configure(args) {
        Ok(endpoint) => Ok(launch(&endpoint)),
        Err(error) => Err(error),
    }
}

/// Takes one step: from the state and the outcome of what was last asked
/// for, to the next state and what to do next.
pub fn advance(policy: Policy, state: State, event: Event) -> (r: Result<Transition, Rejected>)
    ensures
        match r {
            Ok(t) => step_spec(policy, state, event) == Ok::<TransitionView, Rejected>(t@),
            Err(why) => step_spec(policy, state, event) == Err::<TransitionView, Rejected>(why),
        },
{
    match state {
        State::Stopped(_) => Err(Rejected::Stopped),
        State::Binding => match event {
            Event::Bound => Ok(go_on(State::Listening, Action::Accept)),
            Event::BindFailed => Ok(
                settle(policy, Failure::Bind, State::Listening, Action::Accept),
            ),
            _ => Err(Rejected::Unexpected),
        },
        State::Listening => match event {
            Event::Accepted => Ok(
                go_on(State::Servicing(Step::Read), Action::Read(REQUEST_BUFFER_CAPACITY)),
            ),
            Event::AcceptFailed => Ok(
                settle(policy, Failure::Accept, State::Listening, Action::Accept),
            ),
            _ => Err(Rejected::Unexpected),
        },
        State::Servicing(Step::Read) => match event {
            Event::ReadDone(filled) => if filled <= REQUEST_BUFFER_CAPACITY {
                Ok(
                    Transition {
                        next: State::Servicing(Step::Write),
                        action: Action::Write(fixed_response()),
                        notice: Notice::Request(filled),
                    },
                )
            } else {
                Err(Rejected::Oversized)
            },
            Event::ReadFailed => Ok(
                settle(
                    policy,
                    Failure::Read,
                    State::Servicing(Step::Write),
                    Action::Write(fixed_response()),
                ),
            ),
            _ => Err(Rejected::Unexpected),
        },
        State::Servicing(Step::Write) => match event {
            Event::Written => Ok(go_on(State::Servicing(Step::Flush), Action::Flush)),
            Event::WriteFailed => Ok(
                settle(policy, Failure::Write, State::Servicing(Step::Flush), Action::Flush),
            ),
            _ => Err(Rejected::Unexpected),
        },
        State::Servicing(Step::Flush) => match event {
            Event::Flushed => Ok(go_on(State::Servicing(Step::Close), Action::Close)),
            Event::FlushFailed => Ok(
                settle(policy, Failure::Flush, State::Servicing(Step::Close), Action::Close),
            ),
            _ => Err(Rejected::Unexpected),
        },
        State::Servicing(Step::Close) => match event {
            Event::Closed => Ok(go_on(State::Listening, Action::Accept)),
            _ => Err(Rejected::Unexpected),
        },
    }
}

} // verus!
