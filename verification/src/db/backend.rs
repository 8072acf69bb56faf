//! A reference backend, and what the cache client does against it. The
//! backend here is a mathematical object: entries with an expiry, a clock, and
//! the two protocols read as their wire formats say. What is proved of the
//! client against it holds against every backend that answers as it does.

use crate::db::cache::Backend;
use crate::db::exchange::{
    get_transition, set_transition, EventView, GetStepView, RequestView, SetStepView,
};
use crate::db::wire::{bearer, CommandView, HttpRequestView, Method};
use crate::errors::CacheErrorView;
use vstd::prelude::*;

verus! {

/// A stored text and the instant from which it is gone.
pub struct Entry {
    pub value: Seq<char>,
    pub expires: nat,
}

/// The body of an answer of the remote backend: a reply, decoded, or text.
pub enum Body {
    Reply(Option<Seq<char>>),
    Text(Seq<char>),
}

/// The answer of the remote backend to one request.
pub struct Response {
    pub status: u16,
    pub body: Body,
}

/// The reference backend. `base` and `token` are the URL under which it
/// serves HTTP and the credential it asks for; `pending` is the response
/// whose body the caller has not read yet.
pub struct World {
    pub entries: Map<Seq<char>, Entry>,
    pub now: nat,
    pub base: Seq<char>,
    pub token: Seq<char>,
    pub pending: Option<Response>,
}

impl World {
    /// What is stored under `key` at this instant.
    pub open spec fn live(self, key: Seq<char>) -> Option<Seq<char>> {
        if self.entries.contains_key(key) && self.now < self.entries[key].expires {
            Some(self.entries[key].value)
        } else {
            None
        }
    }

    /// The backend with `value` stored under `key` for `seconds` from now.
    pub open spec fn with_entry(self, key: Seq<char>, value: Seq<char>, seconds: nat) -> World {
        World {
            entries: self.entries.insert(key, Entry { value, expires: self.now + seconds }),
            ..self
        }
    }

    /// The same backend, `seconds` later.
    pub open spec fn later(self, seconds: nat) -> World {
        World { now: self.now + seconds, ..self }
    }

    /// Whether this is the backend that a client of `backend` talks to: any
    /// for the local server, and for the remote one that which serves under
    /// the client's URL and asks for the client's credential.
    pub open spec fn serves(self, backend: Backend) -> bool {
        match backend {
            Backend::Direct => true,
            Backend::Remote { url, token } => self.base == url && self.token == token,
        }
    }
}

/// Text without a `/`: what a path holds between two separators.
pub open spec fn slash_free(text: Seq<char>) -> bool {
    forall|i: int| 0 <= i < text.len() ==> #[trigger] text[i] != '/'
}

/// Length of the part of `path` before its first `/`.
pub open spec fn segment_end(path: Seq<char>) -> nat
    decreases path.len(),
{
    if path.len() == 0 || path[0] == '/' {
        0
    } else {
        1 + segment_end(path.skip(1))
    }
}

/// The parts of `path` between its separators, in order. A path that begins
/// with `/` has an empty first part.
pub open spec fn segments(path: Seq<char>) -> Seq<Seq<char>>
    decreases path.len(),
{
    let end = segment_end(path);
    if end >= path.len() {
        seq![path]
    } else {
        seq![path.take(end as int)] + segments(path.skip(end as int + 1))
    }
}

pub open spec fn is_digit(c: char) -> bool {
    48 <= c as u32 <= 57
}

/// Whether `text` is a decimal number: digits, at least one.
pub open spec fn is_number(text: Seq<char>) -> bool {
    text.len() > 0 && forall|i: int| 0 <= i < text.len() ==> is_digit(#[trigger] text[i])
}

/// The number that the digits of `text` write.
pub open spec fn number(text: Seq<char>) -> nat
    decreases text.len(),
{
    if text.len() == 0 {
        0
    } else {
        number(text.drop_last()) * 10 + (text.last() as u32 - 48) as nat
    }
}

/// An operation, as the remote backend reads it from a request.
pub enum Call {
    Store { key: Seq<char>, value: Seq<char>, seconds: nat },
    Read { key: Seq<char> },
}

/// Reads a request's method and path positionally:
/// `POST /SET/{key}/{value}/EX/{seconds}` and `GET /GET/{key}`.
pub open spec fn route(method: Method, parts: Seq<Seq<char>>) -> Option<Call> {
    if method == Method::Post && parts.len() == 6 && parts[0] == Seq::<char>::empty() && parts[1]
        == seq!['S', 'E', 'T'] && parts[4] == seq!['E', 'X'] && is_number(parts[5]) {
        Some(Call::Store { key: parts[2], value: parts[3], seconds: number(parts[5]) })
    } else if method == Method::Get && parts.len() == 3 && parts[0] == Seq::<char>::empty()
        && parts[1] == seq!['G', 'E', 'T'] {
        Some(Call::Read { key: parts[2] })
    } else {
        None
    }
}

/// Whether `url` lies under `base`.
pub open spec fn under(base: Seq<char>, url: Seq<char>) -> bool {
    base.len() <= url.len() && url.take(base.len() as int) == base
}

/// What the backend answers where it refuses: a status outside the successes
/// and a body that says why.
pub open spec fn refusal(status: u16, text: Seq<char>) -> Response {
    Response { status, body: Body::Text(text) }
}

/// The local server's answer to a command. A store for zero seconds is
/// refused; a read finds what is live.
pub open spec fn answer_command(world: World, command: CommandView) -> (World, EventView) {
    match command {
        CommandView::SetEx { key, value, seconds } => if seconds == 0 {
            (world, EventView::Refused("ERR invalid expire time in 'setex' command"@))
        } else {
            (world.with_entry(key, value, seconds), EventView::Stored)
        },
        CommandView::Get { key } => (world, EventView::Fetched(world.live(key))),
    }
}

/// The remote backend's answer to a request.
pub open spec fn answer_request(world: World, request: HttpRequestView) -> (World, Response) {
    if request.authorization != bearer(world.token) {
        (world, refusal(401, "{\"error\":\"Unauthorized\"}"@))
    } else if !under(world.base, request.url) {
        (world, refusal(404, "{\"error\":\"Not Found\"}"@))
    } else {
        match route(request.method, segments(request.url.skip(world.base.len() as int))) {
            Some(Call::Store { key, value, seconds }) => if seconds == 0 {
                (world, refusal(400, "{\"error\":\"ERR invalid expire time in 'set' command\"}"@))
            } else {
                (
                    world.with_entry(key, value, seconds),
                    Response { status: 200, body: Body::Reply(Some(seq!['O', 'K'])) },
                )
            },
            Some(Call::Read { key }) => (
                world,
                Response { status: 200, body: Body::Reply(world.live(key)) },
            ),
            None => (world, refusal(400, "{\"error\":\"ERR syntax error\"}"@)),
        }
    }
}

/// What the caller reports after carrying out `request` against `world`, and
/// the backend as it is then.
pub open spec fn perform(world: World, request: RequestView) -> (World, EventView) {
    match request {
        RequestView::Run(command) => answer_command(world, command),
        RequestView::Send(request) => {
            let (next, response) = answer_request(world, request);
            (World { pending: Some(response), ..next }, EventView::Status(response.status))
        },
        RequestView::ReadText => match world.pending {
            Some(Response { body: Body::Text(text), .. }) => (
                World { pending: None, ..world },
                EventView::Text(text),
            ),
            Some(_) => (World { pending: None, ..world }, EventView::Failed(unread())),
            None => (world, EventView::Failed(unread())),
        },
        RequestView::ReadReply => match world.pending {
            Some(Response { body: Body::Reply(result), .. }) => (
                World { pending: None, ..world },
                EventView::Reply(result),
            ),
            Some(_) => (
                World { pending: None, ..world },
                EventView::Malformed("error decoding response body"@),
            ),
            None => (world, EventView::Failed(unread())),
        },
    }
}

/// The reason given where there is no body to read in the form asked for.
pub open spec fn unread() -> Seq<char> {
    "no body to read"@
}

pub open spec fn set_steps_left(step: SetStepView) -> nat {
    match step {
        SetStepView::Continue(phase, _) => phase.remaining(),
        SetStepView::Done(_) => 0,
    }
}

pub open spec fn get_steps_left(step: GetStepView) -> nat {
    match step {
        GetStepView::Continue(phase, _) => phase.remaining(),
        GetStepView::Done(_) => 0,
    }
}

/// A store carried through against `world` from `step` on: the backend
/// afterwards, and the result.
pub open spec fn run_set(world: World, step: SetStepView) -> (World, Result<(), CacheErrorView>)
    decreases set_steps_left(step),
{
    match step {
        SetStepView::Done(result) => (world, result),
        SetStepView::Continue(phase, request) => {
            let (next, event) = perform(world, request);
            run_set(next, set_transition(phase, event))
        },
    }
}

/// A read carried through against `world` from `step` on: the backend
/// afterwards, and the result.
pub open spec fn run_get(world: World, step: GetStepView) -> (
    World,
    Result<Option<Seq<char>>, CacheErrorView>,
)
    decreases get_steps_left(step),
{
    match step {
        GetStepView::Done(result) => (world, result),
        GetStepView::Continue(phase, request) => {
            let (next, event) = perform(world, request);
            run_get(next, get_transition(phase, event))
        },
    }
}

} // verus!
