//! What travels to a cache backend: commands of the binary protocol and
//! requests of the REST protocol, with the text of each written out.

use crate::text::{decimal, render_decimal};
use vstd::prelude::*;

verus! {

/// HTTP method of a request to the remote backend.
#[derive(Debug, Clone, Copy, PartialEq, Eq, Structural)]
pub enum Method {
    Get,
    Post,
}

/// A request to the remote backend. `authorization` is the value of the
/// `Authorization` header; no other header is set and there is no body.
#[derive(Debug, Clone, PartialEq, Eq)]
pub struct HttpRequest {
    pub method: Method,
    pub url: String,
    pub authorization: String,
}

pub struct HttpRequestView {
    pub method: Method,
    pub url: Seq<char>,
    pub authorization: Seq<char>,
}

impl View for HttpRequest {
    type V = HttpRequestView;

    open spec fn view(&self) -> HttpRequestView {
        HttpRequestView { method: self.method, url: self.url@, authorization: self.authorization@ }
    }
}

/// A command of the binary protocol, run over one connection.
#[derive(Debug, Clone, PartialEq, Eq)]
pub enum Command {
    /// Store `value` under `key`, to expire after `seconds`, in one step.
    SetEx { key: String, value: String, seconds: usize },
    /// Read what is stored under `key`.
    Get { key: String },
}

pub enum CommandView {
    SetEx { key: Seq<char>, value: Seq<char>, seconds: nat },
    Get { key: Seq<char> },
}

impl View for Command {
    type V = CommandView;

    open spec fn view(&self) -> CommandView {
        match self {
            Command::SetEx { key, value, seconds } => CommandView::SetEx {
                key: key@,
                value: value@,
                seconds: *seconds as nat,
            },
            Command::Get { key } => CommandView::Get { key: key@ },
        }
    }
}

/// Path of a store request: `/SET/{key}/{value}/EX/{seconds}`. Key and value
/// stand in it as they are.
pub open spec fn set_path(key: Seq<char>, value: Seq<char>, seconds: nat) -> Seq<char> {
    seq!['/', 'S', 'E', 'T', '/'] + key + seq!['/'] + value + seq!['/', 'E', 'X', '/'] + decimal(
        seconds,
    )
}

/// Path of a read request: `/GET/{key}`.
pub open spec fn get_path(key: Seq<char>) -> Seq<char> {
    seq!['/', 'G', 'E', 'T', '/'] + key
}

pub open spec fn set_endpoint(url: Seq<char>, key: Seq<char>, value: Seq<char>, seconds: nat) -> Seq<
    char,
> {
    url + set_path(key, value, seconds)
}

pub open spec fn get_endpoint(url: Seq<char>, key: Seq<char>) -> Seq<char> {
    url + get_path(key)
}

/// The header value that presents `token` as a bearer credential.
pub open spec fn bearer(token: Seq<char>) -> Seq<char> {
    seq!['B', 'e', 'a', 'r', 'e', 'r', ' '] + token
}

/// Characters that a header value may hold: the tab, and everything from the
/// space upwards but the delete character.
pub open spec fn field_char(c: char) -> bool {
    c == '\t' || (c as u32 >= 32 && c as u32 != 127)
}

pub open spec fn field_value(text: Seq<char>) -> bool {
    forall|i: int| 0 <= i < text.len() ==> field_char(#[trigger] text[i])
}

/// `reqwest::header::HeaderValue::from_str`, asked only whether it accepts
/// `text`. It walks the bytes of `text` and refuses on the first one below 32
/// other than the tab, or equal to 127. Every byte of a character beyond
/// ASCII is above 127, so the test on bytes is `field_value` on characters.
#[verifier::external_body]
fn header_value_accepts(text: &str) -> (accepted: bool)
    ensures
        accepted == field_value(text@),
{
    reqwest::header::HeaderValue::from_str(text).is_ok()
}

/// Writes the URL of a store request.
pub fn set_endpoint_text(url: &str, key: &str, value: &str, seconds: usize) -> (text: String)
    ensures
        text@ == set_endpoint(url@, key@, value@, seconds as nat),
{
    proof {
        reveal_strlit("/SET/");
        reveal_strlit("/");
        reveal_strlit("/EX/");
    }
    let mut text = String::from_str(url);
    text.append("/SET/");
    text.append(key);
    text.append("/");
    text.append(value);
    text.append("/EX/");
    let ttl = render_decimal(seconds);
    text.append(ttl.as_str());
    assert(text@ =~= set_endpoint(url@, key@, value@, seconds as nat));
    text
}

/// Writes the URL of a read request.
pub fn get_endpoint_text(url: &str, key: &str) -> (text: String)
    ensures
        text@ == get_endpoint(url@, key@),
{
    proof {
        reveal_strlit("/GET/");
    }
    let mut text = String::from_str(url);
    text.append("/GET/");
    text.append(key);
    assert(text@ =~= get_endpoint(url@, key@));
    text
}

/// The `Authorization` header for `token`, or `None` where no header can hold
/// it.
pub fn authorization(token: &str) -> (header: Option<String>)
    ensures
        field_value(bearer(token@)) ==> header is Some && header->0@ == bearer(token@),
        !field_value(bearer(token@)) ==> header is None,
{
    proof {
        reveal_strlit("Bearer ");
    }
    let mut text = String::from_str("Bearer ");
    text.append(token);
    assert(text@ =~= bearer(token@));
    if header_value_accepts(text.as_str()) {
        Some(text)
    } else {
        None
    }
}

} // verus!
