//! One cache operation as an exchange with its caller. The caller performs a
//! request, reports what came of it as an event, and is told the next request
//! or the operation's result. A store takes at most two events, a read too.

use crate::db::wire::{Command, CommandView, HttpRequest, HttpRequestView};
use crate::errors::{CacheError, CacheErrorView};
use vstd::prelude::*;

verus! {

/// Body of the remote backend's answer to a successful read: a JSON object
/// whose `result` is the stored text, or null where nothing is stored.
#[derive(Debug, Clone, PartialEq, Eq)]
pub struct RemoteReply {
    pub result: Option<String>,
}

/// How far an exchange has come.
#[derive(Debug, Clone, Copy, PartialEq, Eq, Structural)]
pub enum Phase {
    /// A command is with the local server.
    Issued,
    /// A request is with the remote backend.
    Sent,
    /// The remote backend answered with a status outside the successes; its
    /// body is being read as text.
    Rejected,
    /// The remote backend answered a read with a success; its body is being
    /// decoded.
    Accepted,
}

impl Phase {
    /// An upper bound on the events that an exchange in this phase still
    /// takes.
    pub open spec fn remaining(self) -> nat {
        match self {
            Phase::Sent => 2,
            _ => 1,
        }
    }
}

/// What the caller does next.
#[derive(Debug, Clone, PartialEq, Eq)]
pub enum Request {
    /// Open or reuse a connection to the local server and run the command.
    Run(Command),
    /// Send the request and report the status of the response.
    Send(HttpRequest),
    /// Read the body of the response as text.
    ReadText,
    /// Read the body of the response and decode it as a `RemoteReply`.
    ReadReply,
}

pub enum RequestView {
    Run(CommandView),
    Send(HttpRequestView),
    ReadText,
    ReadReply,
}

impl View for Request {
    type V = RequestView;

    open spec fn view(&self) -> RequestView {
        match self {
            Request::Run(command) => RequestView::Run(command@),
            Request::Send(request) => RequestView::Send(request@),
            Request::ReadText => RequestView::ReadText,
            Request::ReadReply => RequestView::ReadReply,
        }
    }
}

/// What came of a request.
#[derive(Debug, Clone, PartialEq, Eq)]
pub enum Event {
    /// The local server acknowledged a store.
    Stored,
    /// The local server answered a read: the text, or nothing.
    Fetched(Option<String>),
    /// The local server answered with an error; holds its text.
    Refused(String),
    /// The remote backend answered with this status.
    Status(u16),
    /// The body of the response, as text.
    Text(String),
    /// The body of the response, decoded.
    Reply(RemoteReply),
    /// An answer arrived and could not be decoded; holds the reason.
    Malformed(String),
    /// The request could not be carried out; holds the reason.
    Failed(String),
}

pub enum EventView {
    Stored,
    Fetched(Option<Seq<char>>),
    Refused(Seq<char>),
    Status(u16),
    Text(Seq<char>),
    Reply(Option<Seq<char>>),
    Malformed(Seq<char>),
    Failed(Seq<char>),
}

impl View for Event {
    type V = EventView;

    open spec fn view(&self) -> EventView {
        match self {
            Event::Stored => EventView::Stored,
            Event::Fetched(found) => EventView::Fetched(found.deep_view()),
            Event::Refused(text) => EventView::Refused(text@),
            Event::Status(status) => EventView::Status(*status),
            Event::Text(body) => EventView::Text(body@),
            Event::Reply(reply) => EventView::Reply(reply.result.deep_view()),
            Event::Malformed(reason) => EventView::Malformed(reason@),
            Event::Failed(reason) => EventView::Failed(reason@),
        }
    }
}

/// A store, one step on: the next request, or how it ended.
#[derive(Debug, PartialEq, Eq)]
pub enum SetStep {
    Continue(Phase, Request),
    Done(Result<(), CacheError>),
}

pub enum SetStepView {
    Continue(Phase, RequestView),
    Done(Result<(), CacheErrorView>),
}

impl View for SetStep {
    type V = SetStepView;

    open spec fn view(&self) -> SetStepView {
        match self {
            SetStep::Continue(phase, request) => SetStepView::Continue(*phase, request@),
            SetStep::Done(Ok(_)) => SetStepView::Done(Ok(())),
            SetStep::Done(Err(error)) => SetStepView::Done(Err(error@)),
        }
    }
}

/// A read, one step on: the next request, or how it ended. A read that finds
/// nothing ends in `Ok(None)`.
#[derive(Debug, PartialEq, Eq)]
pub enum GetStep {
    Continue(Phase, Request),
    Done(Result<Option<String>, CacheError>),
}

pub enum GetStepView {
    Continue(Phase, RequestView),
    Done(Result<Option<Seq<char>>, CacheErrorView>),
}

impl View for GetStep {
    type V = GetStepView;

    open spec fn view(&self) -> GetStepView {
        match self {
            GetStep::Continue(phase, request) => GetStepView::Continue(*phase, request@),
            GetStep::Done(Ok(found)) => GetStepView::Done(Ok(found.deep_view())),
            GetStep::Done(Err(error)) => GetStepView::Done(Err(error@)),
        }
    }
}

/// The statuses that count as success: 200 to 299.
pub open spec fn success(status: u16) -> bool {
    200 <= status < 300
}

#[verifier::when_used_as_spec(success)]
pub fn is_success(status: u16) -> (yes: bool)
    ensures
        yes == success(status),
{
    200 <= status && status < 300
}

/// The reason given when an event does not fit the phase it arrives in.
pub open spec fn out_of_order() -> Seq<char> {
    "event does not fit the exchange"@
}

/// Where a store goes from `phase` on `event`.
pub open spec fn set_transition(phase: Phase, event: EventView) -> SetStepView {
    match (phase, event) {
        (_, EventView::Failed(reason)) => SetStepView::Done(Err(CacheErrorView::Transport(reason))),
        (Phase::Issued, EventView::Stored) => SetStepView::Done(Ok(())),
        (Phase::Issued, EventView::Refused(text)) => SetStepView::Done(
            Err(CacheErrorView::Backend(text)),
        ),
        (Phase::Sent, EventView::Status(status)) => if success(status) {
            SetStepView::Done(Ok(()))
        } else {
            SetStepView::Continue(Phase::Rejected, RequestView::ReadText)
        },
        (Phase::Rejected, EventView::Text(body)) => SetStepView::Done(
            Err(CacheErrorView::Backend(body)),
        ),
        _ => SetStepView::Done(Err(CacheErrorView::Transport(out_of_order()))),
    }
}

/// Where a read goes from `phase` on `event`.
pub open spec fn get_transition(phase: Phase, event: EventView) -> GetStepView {
    match (phase, event) {
        (_, EventView::Failed(reason)) => GetStepView::Done(Err(CacheErrorView::Transport(reason))),
        (Phase::Issued, EventView::Fetched(found)) => GetStepView::Done(Ok(found)),
        (Phase::Issued, EventView::Refused(text)) => GetStepView::Done(
            Err(CacheErrorView::Backend(text)),
        ),
        (Phase::Issued, EventView::Malformed(reason)) => GetStepView::Done(
            Err(CacheErrorView::Encoding(reason)),
        ),
        (Phase::Sent, EventView::Status(status)) => if success(status) {
            GetStepView::Continue(Phase::Accepted, RequestView::ReadReply)
        } else {
            GetStepView::Continue(Phase::Rejected, RequestView::ReadText)
        },
        (Phase::Rejected, EventView::Text(body)) => GetStepView::Done(
            Err(CacheErrorView::Backend(body)),
        ),
        (Phase::Accepted, EventView::Reply(result)) => GetStepView::Done(Ok(result)),
        (Phase::Accepted, EventView::Malformed(reason)) => GetStepView::Done(
            Err(CacheErrorView::Encoding(reason)),
        ),
        _ => GetStepView::Done(Err(CacheErrorView::Transport(out_of_order()))),
    }
}

fn stray() -> (error: CacheError)
    ensures
        error@ == CacheErrorView::Transport(out_of_order()),
{
    CacheError::Transport(String::from_str("event does not fit the exchange"))
}

/// Takes a store one step on: from `phase`, on `event`.
pub fn continue_set(phase: Phase, event: Event) -> (step: SetStep)
    ensures
        step@ == set_transition(phase, event@),
{
    match event {
        Event::Failed(reason) => SetStep::Done(Err(CacheError::Transport(reason))),
        Event::Stored => match phase {
            Phase::Issued => SetStep::Done(Ok(())),
            _ => SetStep::Done(Err(stray())),
        },
        Event::Refused(text) => match phase {
            Phase::Issued => SetStep::Done(Err(CacheError::Backend(text))),
            _ => SetStep::Done(Err(stray())),
        },
        Event::Status(status) => match phase {
            Phase::Sent => if is_success(status) {
                SetStep::Done(Ok(()))
            } else {
                SetStep::Continue(Phase::Rejected, Request::ReadText)
            },
            _ => SetStep::Done(Err(stray())),
        },
        Event::Text(body) => match phase {
            Phase::Rejected => SetStep::Done(Err(CacheError::Backend(body))),
            _ => SetStep::Done(Err(stray())),
        },
        _ => SetStep::Done(Err(stray())),
    }
}

/// Takes a read one step on: from `phase`, on `event`.
pub fn continue_get(phase: Phase, event: Event) -> (step: GetStep)
    ensures
        step@ == get_transition(phase, event@),
{
    match event {
        Event::Failed(reason) => GetStep::Done(Err(CacheError::Transport(reason))),
        Event::Fetched(found) => match phase {
            Phase::Issued => GetStep::Done(Ok(found)),
            _ => GetStep::Done(Err(stray())),
        },
        Event::Refused(text) => match phase {
            Phase::Issued => GetStep::Done(Err(CacheError::Backend(text))),
            _ => GetStep::Done(Err(stray())),
        },
        Event::Status(status) => match phase {
            Phase::Sent => if is_success(status) {
                GetStep::Continue(Phase::Accepted, Request::ReadReply)
            } else {
                GetStep::Continue(Phase::Rejected, Request::ReadText)
            },
            _ => GetStep::Done(Err(stray())),
        },
        Event::Text(body) => match phase {
            Phase::Rejected => GetStep::Done(Err(CacheError::Backend(body))),
            _ => GetStep::Done(Err(stray())),
        },
        Event::Reply(reply) => match phase {
            Phase::Accepted => GetStep::Done(Ok(reply.result)),
            _ => GetStep::Done(Err(stray())),
        },
        Event::Malformed(reason) => match phase {
            Phase::Issued => GetStep::Done(Err(CacheError::Encoding(reason))),
            Phase::Accepted => GetStep::Done(Err(CacheError::Encoding(reason))),
            _ => GetStep::Done(Err(stray())),
        },
        Event::Stored => GetStep::Done(Err(stray())),
    }
}

} // verus!
