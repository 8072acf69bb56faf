//! What holds of the cache client against the reference backend.

use crate::config::RedisSettings;
use crate::db::backend::{
    is_digit, is_number, number, run_get, run_set, segment_end, segments, slash_free, under, World,
};
use crate::db::cache::{begin_get, begin_set, chosen_backend, Backend};
use crate::db::exchange::{
    get_transition, set_transition, success, EventView, GetStepView, Phase, RequestView,
    SetStepView,
};
use crate::db::wire::{bearer, field_value, get_path, set_path};
use crate::errors::{refusal_prefix, CacheErrorView};
use crate::text::{decimal, digit};
use vstd::prelude::*;

verus! {

proof fn lemma_segment_end(head: Seq<char>, rest: Seq<char>)
    requires
        slash_free(head),
        rest.len() == 0 || rest[0] == '/',
    ensures
        segment_end(head + rest) == head.len(),
    decreases head.len(),
{
    let path = head + rest;
    if head.len() == 0 {
        assert(path =~= rest);
    } else {
        assert(path[0] == head[0]);
        assert(path.skip(1) =~= head.skip(1) + rest);
        assert forall|i: int| 0 <= i < head.skip(1).len() implies #[trigger] head.skip(1)[i]
            != '/' by {
            assert(head.skip(1)[i] == head[i + 1]);
        }
        lemma_segment_end(head.skip(1), rest);
    }
}

proof fn lemma_segments_last(part: Seq<char>)
    requires
        slash_free(part),
    ensures
        segments(part) == seq![part],
{
    lemma_segment_end(part, Seq::empty());
    assert(part + Seq::<char>::empty() =~= part);
}

proof fn lemma_segments_front(part: Seq<char>, rest: Seq<char>)
    requires
        slash_free(part),
    ensures
        segments(part + seq!['/'] + rest) == seq![part] + segments(rest),
{
    let path = part + seq!['/'] + rest;
    lemma_segment_end(part, seq!['/'] + rest);
    assert(path =~= part + (seq!['/'] + rest));
    assert(path.take(part.len() as int) =~= part);
    assert(path.skip(part.len() as int + 1) =~= rest);
}

proof fn lemma_decimal(n: nat)
    ensures
        is_number(decimal(n)),
        number(decimal(n)) == n,
        slash_free(decimal(n)),
    decreases n,
{
    let text = decimal(n);
    if n < 10 {
        assert(text.drop_last() =~= Seq::<char>::empty());
        assert(number(text.drop_last()) == 0);
        assert(text.last() == digit(n));
    } else {
        lemma_decimal(n / 10);
        assert(text.drop_last() =~= decimal(n / 10));
        assert(text.last() == digit(n % 10));
        assert forall|i: int| 0 <= i < text.len() implies is_digit(#[trigger] text[i]) by {
            if i < text.len() - 1 {
                assert(text[i] == decimal(n / 10)[i]);
            }
        }
    }
    assert forall|i: int| 0 <= i < text.len() implies #[trigger] text[i] != '/' by {
        assert(is_digit(text[i]));
    }
}

/// The parts of a store request's path, where neither key nor value holds a
/// separator.
proof fn lemma_set_path(key: Seq<char>, value: Seq<char>, seconds: nat)
    requires
        slash_free(key),
        slash_free(value),
    ensures
        segments(set_path(key, value, seconds)) == seq![
            Seq::<char>::empty(),
            seq!['S', 'E', 'T'],
            key,
            value,
            seq!['E', 'X'],
            decimal(seconds),
        ],
{
    let none = Seq::<char>::empty();
    let verb = seq!['S', 'E', 'T'];
    let unit = seq!['E', 'X'];
    let ttl = decimal(seconds);
    let slash = seq!['/'];
    lemma_decimal(seconds);
    let r5 = ttl;
    let r4 = unit + slash + r5;
    let r3 = value + slash + r4;
    let r2 = key + slash + r3;
    let r1 = verb + slash + r2;
    let r0 = none + slash + r1;
    assert(set_path(key, value, seconds) =~= r0);
    lemma_segments_last(r5);
    lemma_segments_front(unit, r5);
    lemma_segments_front(value, r4);
    lemma_segments_front(key, r3);
    lemma_segments_front(verb, r2);
    lemma_segments_front(none, r1);
    assert(segments(r0) =~= seq![none, verb, key, value, unit, ttl]);
}

/// The parts of a read request's path, where the key holds no separator.
proof fn lemma_get_path(key: Seq<char>)
    requires
        slash_free(key),
    ensures
        segments(get_path(key)) == seq![Seq::<char>::empty(), seq!['G', 'E', 'T'], key],
{
    let none = Seq::<char>::empty();
    let verb = seq!['G', 'E', 'T'];
    let slash = seq!['/'];
    let r1 = verb + slash + key;
    let r0 = none + slash + r1;
    assert(get_path(key) =~= r0);
    lemma_segments_last(key);
    lemma_segments_front(verb, key);
    lemma_segments_front(none, r1);
    assert(segments(r0) =~= seq![none, verb, key]);
}

/// How many times `/` occurs in `text`.
pub open spec fn separators(text: Seq<char>) -> nat
    decreases text.len(),
{
    if text.len() == 0 {
        0
    } else {
        separators(text.drop_last()) + if text.last() == '/' {
            1nat
        } else {
            0nat
        }
    }
}

proof fn lemma_separators_none(text: Seq<char>)
    ensures
        separators(text) == 0 <==> slash_free(text),
    decreases text.len(),
{
    if text.len() > 0 {
        let front = text.drop_last();
        lemma_separators_none(front);
        if slash_free(text) {
            assert forall|i: int| 0 <= i < front.len() implies #[trigger] front[i] != '/' by {
                assert(front[i] == text[i]);
            }
            assert(text[text.len() - 1] != '/');
        } else if text.last() != '/' {
            if slash_free(front) {
                assert forall|i: int| 0 <= i < text.len() implies #[trigger] text[i] != '/' by {
                    if i < front.len() {
                        assert(text[i] == front[i]);
                    }
                }
            }
        }
    }
}

proof fn lemma_separators_add(a: Seq<char>, b: Seq<char>)
    ensures
        separators(a + b) == separators(a) + separators(b),
    decreases b.len(),
{
    if b.len() == 0 {
        assert(a + b =~= a);
    } else {
        assert((a + b).drop_last() =~= a + b.drop_last());
        assert((a + b).last() == b.last());
        lemma_separators_add(a, b.drop_last());
    }
}

proof fn lemma_segment_end_found(path: Seq<char>)
    ensures
        segment_end(path) <= path.len(),
        slash_free(path.take(segment_end(path) as int)),
        segment_end(path) < path.len() ==> path[segment_end(path) as int] == '/',
    decreases path.len(),
{
    if path.len() == 0 || path[0] == '/' {
    } else {
        let tail = path.skip(1);
        lemma_segment_end_found(tail);
        let end = segment_end(path);
        let head = path.take(end as int);
        assert forall|i: int| 0 <= i < head.len() implies #[trigger] head[i] != '/' by {
            if i > 0 {
                assert(head[i] == tail.take(segment_end(tail) as int)[i - 1]);
            }
        }
        if end < path.len() {
            assert(path[end as int] == tail[segment_end(tail) as int]);
        }
    }
}

/// A path has one part more than it has separators.
proof fn lemma_segments_count(path: Seq<char>)
    ensures
        segments(path).len() == separators(path) + 1,
    decreases path.len(),
{
    let end = segment_end(path);
    lemma_segment_end_found(path);
    if end >= path.len() {
        assert(path.take(end as int) =~= path);
        lemma_separators_none(path);
    } else {
        let head = path.take(end as int);
        let rest = path.skip(end as int + 1);
        assert(path =~= head + seq!['/'] + rest);
        lemma_separators_add(head + seq!['/'], rest);
        lemma_separators_add(head, seq!['/']);
        lemma_separators_none(head);
        assert(seq!['/'].drop_last() =~= Seq::<char>::empty());
        assert(separators(seq!['/']) == 1) by {
            reveal_with_fuel(separators, 2);
        }
        lemma_segments_count(rest);
    }
}

proof fn lemma_set_path_count(key: Seq<char>, value: Seq<char>, seconds: nat)
    ensures
        segments(set_path(key, value, seconds)).len() == 6 + separators(key) + separators(value),
{
    let a = seq!['/', 'S', 'E', 'T', '/'];
    let b = seq!['/'];
    let c = seq!['/', 'E', 'X', '/'];
    let ttl = decimal(seconds);
    lemma_decimal(seconds);
    lemma_separators_none(ttl);
    assert(separators(a) == 2) by {
        reveal_with_fuel(separators, 6);
        assert(a.drop_last() =~= seq!['/', 'S', 'E', 'T']);
        assert(a.drop_last().drop_last() =~= seq!['/', 'S', 'E']);
        assert(a.drop_last().drop_last().drop_last() =~= seq!['/', 'S']);
        assert(a.drop_last().drop_last().drop_last().drop_last() =~= seq!['/']);
        assert(seq!['/'].drop_last() =~= Seq::<char>::empty());
    }
    assert(separators(b) == 1) by {
        reveal_with_fuel(separators, 2);
        assert(b.drop_last() =~= Seq::<char>::empty());
    }
    assert(separators(c) == 2) by {
        reveal_with_fuel(separators, 5);
        assert(c.drop_last() =~= seq!['/', 'E', 'X']);
        assert(c.drop_last().drop_last() =~= seq!['/', 'E']);
        assert(c.drop_last().drop_last().drop_last() =~= seq!['/']);
        assert(seq!['/'].drop_last() =~= Seq::<char>::empty());
    }
    lemma_separators_add(a, key);
    lemma_separators_add(a + key, b);
    lemma_separators_add(a + key + b, value);
    lemma_separators_add(a + key + b + value, c);
    lemma_separators_add(a + key + b + value + c, ttl);
    lemma_segments_count(set_path(key, value, seconds));
}

proof fn lemma_get_path_count(key: Seq<char>)
    ensures
        segments(get_path(key)).len() == 3 + separators(key),
{
    let a = seq!['/', 'G', 'E', 'T', '/'];
    assert(separators(a) == 2) by {
        reveal_with_fuel(separators, 6);
        assert(a.drop_last() =~= seq!['/', 'G', 'E', 'T']);
        assert(a.drop_last().drop_last() =~= seq!['/', 'G', 'E']);
        assert(a.drop_last().drop_last().drop_last() =~= seq!['/', 'G']);
        assert(a.drop_last().drop_last().drop_last().drop_last() =~= seq!['/']);
        assert(seq!['/'].drop_last() =~= Seq::<char>::empty());
    }
    lemma_separators_add(a, key);
    lemma_segments_count(get_path(key));
}

proof fn lemma_under(base: Seq<char>, path: Seq<char>)
    ensures
        under(base, base + path),
        (base + path).skip(base.len() as int) == path,
{
    assert((base + path).take(base.len() as int) =~= base);
    assert((base + path).skip(base.len() as int) =~= path);
}

/// Which backend a client speaks to depends on nothing but whether the
/// settings give the remote URL and the remote credential: the remote backend
/// where both are there, the local server otherwise.
pub proof fn backend_follows_presence(a: RedisSettings, b: RedisSettings)
    requires
        a.upstash_redis_rest_url is Some == b.upstash_redis_rest_url is Some,
        a.upstash_redis_rest_token is Some == b.upstash_redis_rest_token is Some,
    ensures
        chosen_backend(a) is Remote == chosen_backend(b) is Remote,
        chosen_backend(a) is Remote <==> a.upstash_redis_rest_url is Some
            && a.upstash_redis_rest_token is Some,
        chosen_backend(a) is Direct <==> !(a.upstash_redis_rest_url is Some
            && a.upstash_redis_rest_token is Some),
{
}

/// A text stored for a positive time is there to be read at once: the store
/// succeeds, and a read of the same key through the same client, with no time
/// gone by, finds the text. For the remote backend this is so where the
/// credential can stand in a header and neither key nor value holds a `/`.
pub proof fn store_then_read(
    backend: Backend,
    world: World,
    key: Seq<char>,
    value: Seq<char>,
    seconds: nat,
)
    requires
        world.serves(backend),
        seconds > 0,
        backend matches Backend::Remote { token, .. } ==> field_value(bearer(token)) && slash_free(
            key,
        ) && slash_free(value),
    ensures
        run_set(world, begin_set(backend, key, value, seconds)).1 == Ok::<(), CacheErrorView>(()),
        run_set(world, begin_set(backend, key, value, seconds)).0.live(key) == Some(value),
        run_get(
            run_set(world, begin_set(backend, key, value, seconds)).0,
            begin_get(backend, key),
        ).1 == Ok::<Option<Seq<char>>, CacheErrorView>(Some(value)),
{
    reveal_with_fuel(run_set, 3);
    reveal_with_fuel(run_get, 3);
    match backend {
        Backend::Direct => {},
        Backend::Remote { url, token } => {
            lemma_set_path(key, value, seconds);
            lemma_get_path(key);
            lemma_decimal(seconds);
            lemma_under(url, set_path(key, value, seconds));
            lemma_under(url, get_path(key));
        },
    }
}

/// A read of a key under which nothing is live finds nothing, and that is a
/// result, not a failure: so for a key never stored, and for one whose time
/// has run out. For the remote backend this is so where the credential can
/// stand in a header and the key holds no `/`.
pub proof fn read_of_absent(backend: Backend, world: World, key: Seq<char>)
    requires
        world.serves(backend),
        world.live(key) is None,
        backend matches Backend::Remote { token, .. } ==> field_value(bearer(token)) && slash_free(
            key,
        ),
    ensures
        run_get(world, begin_get(backend, key)).1 == Ok::<Option<Seq<char>>, CacheErrorView>(None),
        run_get(world, begin_get(backend, key)).0.entries == world.entries,
{
    reveal_with_fuel(run_get, 3);
    match backend {
        Backend::Direct => {},
        Backend::Remote { url, token } => {
            lemma_get_path(key);
            lemma_under(url, get_path(key));
        },
    }
}

/// What was stored for `seconds` is live until that time has gone by, and
/// not from then on.
pub proof fn live_until_expiry(
    world: World,
    key: Seq<char>,
    value: Seq<char>,
    seconds: nat,
    waited: nat,
)
    ensures
        world.with_entry(key, value, seconds).later(waited).live(key) == if waited < seconds {
            Some(value)
        } else {
            None
        },
{
}

/// Through the remote backend a store succeeds on exactly these inputs: the
/// time is positive, the credential can stand in a header, and neither key
/// nor value holds a `/`. Where the credential cannot, nothing is sent; where
/// a `/` shifts the parts of the path, or the time is zero, the backend
/// refuses and the store ends in that refusal, with nothing stored.
pub proof fn remote_store_succeeds_iff(
    world: World,
    url: Seq<char>,
    token: Seq<char>,
    key: Seq<char>,
    value: Seq<char>,
    seconds: nat,
)
    requires
        world.serves(Backend::Remote { url, token }),
    ensures
        run_set(world, begin_set(Backend::Remote { url, token }, key, value, seconds)).1 is Ok
            <==> seconds > 0 && field_value(bearer(token)) && slash_free(key) && slash_free(value),
        !field_value(bearer(token)) ==> begin_set(Backend::Remote { url, token }, key, value, seconds)
            is Done,
        field_value(bearer(token)) && !(seconds > 0 && slash_free(key) && slash_free(value)) ==> {
            let end = run_set(world, begin_set(Backend::Remote { url, token }, key, value, seconds));
            end.1 is Err && end.1->Err_0 is Backend && end.0.entries == world.entries
        },
{
    reveal_with_fuel(run_set, 3);
    let backend = Backend::Remote { url, token };
    lemma_under(url, set_path(key, value, seconds));
    lemma_set_path_count(key, value, seconds);
    lemma_separators_none(key);
    lemma_separators_none(value);
    lemma_decimal(seconds);
    if slash_free(key) && slash_free(value) {
        lemma_set_path(key, value, seconds);
    }
}

/// Through the remote backend a read of a key that holds a `/` is refused:
/// the parts of the path are not those of a read.
pub proof fn remote_read_succeeds_iff(world: World, url: Seq<char>, token: Seq<char>, key: Seq<char>)
    requires
        world.serves(Backend::Remote { url, token }),
    ensures
        run_get(world, begin_get(Backend::Remote { url, token }, key)).1 is Ok <==> field_value(
            bearer(token),
        ) && slash_free(key),
        field_value(bearer(token)) && slash_free(key) ==> run_get(
            world,
            begin_get(Backend::Remote { url, token }, key),
        ).1 == Ok::<Option<Seq<char>>, CacheErrorView>(world.live(key)),
{
    reveal_with_fuel(run_get, 3);
    lemma_under(url, get_path(key));
    lemma_get_path_count(key);
    lemma_separators_none(key);
    if slash_free(key) {
        lemma_get_path(key);
    }
}

/// Through the local server a store succeeds where the time is positive and
/// a read always does; neither looks into key or value.
pub proof fn direct_operations(world: World, key: Seq<char>, value: Seq<char>, seconds: nat)
    ensures
        run_set(world, begin_set(Backend::Direct, key, value, seconds)).1 is Ok <==> seconds > 0,
        run_get(world, begin_get(Backend::Direct, key)) == (
            world,
            Ok::<Option<Seq<char>>, CacheErrorView>(world.live(key)),
        ),
{
    reveal_with_fuel(run_set, 3);
    reveal_with_fuel(run_get, 3);
}

/// Every event brings an exchange nearer its end: a store or a read is over
/// after two events at most.
pub proof fn exchange_ends(phase: Phase, event: EventView)
    ensures
        set_transition(phase, event) matches SetStepView::Continue(next, _) ==> next.remaining()
            < phase.remaining(),
        get_transition(phase, event) matches GetStepView::Continue(next, _) ==> next.remaining()
            < phase.remaining(),
        phase.remaining() <= 2,
{
}

/// A failure to carry out a request ends the operation, whatever its phase,
/// in a transport failure that holds the reason: nothing is retried and
/// nothing is swallowed.
pub proof fn failure_is_reported(phase: Phase, reason: Seq<char>)
    ensures
        set_transition(phase, EventView::Failed(reason)) == SetStepView::Done(
            Err(CacheErrorView::Transport(reason)),
        ),
        get_transition(phase, EventView::Failed(reason)) == GetStepView::Done(
            Err(CacheErrorView::Transport(reason)),
        ),
{
}

/// An answer of the remote backend with a status outside 200 to 299 ends the
/// operation in a refusal that holds the body of the answer unchanged, and
/// whose text is that body behind the refusal prefix.
pub proof fn refusal_holds_body(status: u16, body: Seq<char>)
    requires
        !success(status),
    ensures
        set_transition(Phase::Sent, EventView::Status(status)) == SetStepView::Continue(
            Phase::Rejected,
            RequestView::ReadText,
        ),
        set_transition(Phase::Rejected, EventView::Text(body)) == SetStepView::Done(
            Err(CacheErrorView::Backend(body)),
        ),
        get_transition(Phase::Sent, EventView::Status(status)) == GetStepView::Continue(
            Phase::Rejected,
            RequestView::ReadText,
        ),
        get_transition(Phase::Rejected, EventView::Text(body)) == GetStepView::Done(
            Err(CacheErrorView::Backend(body)),
        ),
        CacheErrorView::Backend(body).message() == refusal_prefix() + body,
{
}

/// A reply of the remote backend to a read is handed on as it is: a null
/// result as nothing found, a text as that text.
pub proof fn reply_is_handed_on(status: u16, result: Option<Seq<char>>)
    requires
        success(status),
    ensures
        get_transition(Phase::Sent, EventView::Status(status)) == GetStepView::Continue(
            Phase::Accepted,
            RequestView::ReadReply,
        ),
        get_transition(Phase::Accepted, EventView::Reply(result)) == GetStepView::Done(Ok(result)),
        set_transition(Phase::Sent, EventView::Status(status)) == SetStepView::Done(Ok(())),
{
}

} // verus!
