//! The cache client: one key-value interface over two backends, chosen once
//! from the settings.

use crate::config::RedisSettings;
use crate::db::exchange::{GetStep, GetStepView, Phase, Request, RequestView, SetStep, SetStepView};
use crate::db::wire::{
    authorization, bearer, field_value, get_endpoint, get_endpoint_text, set_endpoint,
    set_endpoint_text, Command, CommandView, HttpRequest, HttpRequestView, Method,
};
use crate::errors::{CacheError, CacheErrorView};
use vstd::pervasive::unreached;
use vstd::prelude::*;

verus! {

#[verifier::external_type_specification]
#[verifier::external_body]
pub struct ExClient(redis::Client);

#[verifier::external_type_specification]
#[verifier::external_body]
pub struct ExRedisError(redis::RedisError);

/// Whether `redis::Client::open` takes `uri` as the address of a server.
pub uninterp spec fn redis_accepts(uri: Seq<char>) -> bool;

/// `redis::Client::open` on a connection string. It parses the string as a
/// URL, asks for one of the schemes of the protocol, and reads host, port,
/// database and credentials from it; no connection is made. Whether it
/// succeeds depends on the string alone.
#[verifier::external_body]
fn open_client(uri: &str) -> (opened: Result<redis::Client, redis::RedisError>)
    ensures
        opened is Ok == redis_accepts(uri@),
{
    redis::Client::open(uri)
}

/// The cache client. Its backend is fixed when it is built, and no operation
/// changes it: one client serves every request of the process.
pub enum CacheStore {
    /// The local server, over the binary protocol. The client makes
    /// connections on demand.
    Tcp(redis::Client),
    /// The remote backend, over HTTP: its base URL and the bearer credential.
    Rest { url: String, token: String },
}

/// Which backend a client speaks to, and with what.
pub enum Backend {
    Direct,
    Remote { url: Seq<char>, token: Seq<char> },
}

impl View for CacheStore {
    type V = Backend;

    open spec fn view(&self) -> Backend {
        match self {
            CacheStore::Tcp(_) => Backend::Direct,
            CacheStore::Rest { url, token } => Backend::Remote { url: url@, token: token@ },
        }
    }
}

/// The backend that `settings` choose: the remote one where both its URL and
/// its credential are given, the local server otherwise.
pub open spec fn chosen_backend(settings: RedisSettings) -> Backend {
    if settings.remote_chosen() {
        Backend::Remote {
            url: settings.upstash_redis_rest_url->0@,
            token: settings.upstash_redis_rest_token->0@,
        }
    } else {
        Backend::Direct
    }
}

/// Whether a client can be built from `settings`: always for the remote
/// backend, and for the local server where its connection string is one.
pub open spec fn usable(settings: RedisSettings) -> bool {
    settings.remote_chosen() || redis_accepts(settings.uri@)
}

/// The reason given when the local server's connection string is refused.
pub open spec fn bad_connection_string() -> Seq<char> {
    "Falló al crearse el Redis TCP client"@
}

/// The reason given when no header can hold the credential.
pub open spec fn bad_credential() -> Seq<char> {
    "failed to parse header value"@
}

/// How a store of `value` under `key` for `seconds` begins.
pub open spec fn begin_set(
    backend: Backend,
    key: Seq<char>,
    value: Seq<char>,
    seconds: nat,
) -> SetStepView {
    match backend {
        Backend::Direct => SetStepView::Continue(
            Phase::Issued,
            RequestView::Run(CommandView::SetEx { key, value, seconds }),
        ),
        Backend::Remote { url, token } => if field_value(bearer(token)) {
            SetStepView::Continue(
                Phase::Sent,
                RequestView::Send(
                    HttpRequestView {
                        method: Method::Post,
                        url: set_endpoint(url, key, value, seconds),
                        authorization: bearer(token),
                    },
                ),
            )
        } else {
            SetStepView::Done(Err(CacheErrorView::Configuration(bad_credential())))
        },
    }
}

/// How a read of `key` begins.
pub open spec fn begin_get(backend: Backend, key: Seq<char>) -> GetStepView {
    match backend {
        Backend::Direct => GetStepView::Continue(
            Phase::Issued,
            RequestView::Run(CommandView::Get { key }),
        ),
        Backend::Remote { url, token } => if field_value(bearer(token)) {
            GetStepView::Continue(
                Phase::Sent,
                RequestView::Send(
                    HttpRequestView {
                        method: Method::Get,
                        url: get_endpoint(url, key),
                        authorization: bearer(token),
                    },
                ),
            )
        } else {
            GetStepView::Done(Err(CacheErrorView::Configuration(bad_credential())))
        },
    }
}

impl CacheStore {
    /// Builds the client that `settings` choose. For the local server this
    /// makes a connection factory from the connection string and opens
    /// nothing; for the remote backend it keeps the URL and the credential.
    pub fn build(settings: &RedisSettings) -> (store: CacheStore)
        requires
            usable(*settings),
        ensures
            store@ == chosen_backend(*settings),
    {
        if settings.use_upstash() {
            let url = settings.upstash_redis_rest_url.as_ref().unwrap().clone();
            let token = settings.upstash_redis_rest_token.as_ref().unwrap().clone();
            CacheStore::Rest { url, token }
        } else {
            let uri = settings.connection_string();
            match open_client(uri.as_str()) {
                Ok(client) => CacheStore::Tcp(client),
                Err(_) => unreached(),
            }
        }
    }

    /// Builds the client that `settings` choose, or says that the local
    /// server's connection string is none.
    pub fn try_build(settings: &RedisSettings) -> (built: Result<CacheStore, CacheError>)
        ensures
            usable(*settings) ==> built is Ok && built->Ok_0@ == chosen_backend(*settings),
            !usable(*settings) ==> built is Err && built->Err_0@ == CacheErrorView::Configuration(
                bad_connection_string(),
            ),
    {
        if settings.use_upstash() || open_client(settings.uri.as_str()).is_ok() {
            Ok(CacheStore::build(settings))
        } else {
            Err(
                CacheError::Configuration(
                    String::from_str("Falló al crearse el Redis TCP client"),
                ),
            )
        }
    }

    /// Begins to store `value` under `key`, to expire after `expire_secs`
    /// seconds. Key and value go into the remote backend's URL as they are.
    pub fn set(&self, key: &str, value: &str, expire_secs: usize) -> (step: SetStep)
        ensures
            step@ == begin_set(self@, key@, value@, expire_secs as nat),
    {
        match self {
            CacheStore::Tcp(_) => SetStep::Continue(
                Phase::Issued,
                Request::Run(
                    Command::SetEx {
                        key: String::from_str(key),
                        value: String::from_str(value),
                        seconds: expire_secs,
                    },
                ),
            ),
            CacheStore::Rest { url, token } => {
                let endpoint = set_endpoint_text(url.as_str(), key, value, expire_secs);
                match authorization(token.as_str()) {
                    Some(header) => SetStep::Continue(
                        Phase::Sent,
                        Request::Send(
                            HttpRequest { method: Method::Post, url: endpoint, authorization: header },
                        ),
                    ),
                    None => SetStep::Done(
                        Err(CacheError::Configuration(String::from_str("failed to parse header value"))),
                    ),
                }
            },
        }
    }

    /// Begins to read what is stored under `key`. The key goes into the
    /// remote backend's URL as it is.
    pub fn get(&self, key: &str) -> (step: GetStep)
        ensures
            step@ == begin_get(self@, key@),
    {
        match self {
            CacheStore::Tcp(_) => GetStep::Continue(
                Phase::Issued,
                Request::Run(Command::Get { key: String::from_str(key) }),
            ),
            CacheStore::Rest { url, token } => {
                let endpoint = get_endpoint_text(url.as_str(), key);
                match authorization(token.as_str()) {
                    Some(header) => GetStep::Continue(
                        Phase::Sent,
                        Request::Send(
                            HttpRequest { method: Method::Get, url: endpoint, authorization: header },
                        ),
                    ),
                    None => GetStep::Done(
                        Err(CacheError::Configuration(String::from_str("failed to parse header value"))),
                    ),
                }
            },
        }
    }
}

} // verus!
