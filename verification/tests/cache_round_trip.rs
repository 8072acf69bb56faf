use high_concurrency_api::config::RedisSettings;
use high_concurrency_api::db::cache::CacheStore;
use high_concurrency_api::db::exchange::{
    continue_get, continue_set, Event, GetStep, RemoteReply, Request, SetStep,
};
use high_concurrency_api::db::wire::{Command, HttpRequest, Method};
use high_concurrency_api::errors::CacheError;
use std::collections::HashMap;

/// A backend in memory that answers both protocols.
struct Fake {
    base: String,
    token: String,
    entries: HashMap<String, (String, u64)>,
    now: u64,
    pending: Option<(u16, String, Option<Option<String>>)>,
    requests: usize,
}

impl Fake {
    fn new(base: &str, token: &str) -> Fake {
        Fake {
            base: String::from(base),
            token: String::from(token),
            entries: HashMap::new(),
            now: 1_000,
            pending: None,
            requests: 0,
        }
    }

    fn live(&self, key: &str) -> Option<String> {
        match self.entries.get(key) {
            Some((value, expires)) if self.now < *expires => Some(value.clone()),
            _ => None,
        }
    }

    fn answer(&mut self, request: &HttpRequest) -> (u16, String, Option<Option<String>>) {
        if request.authorization != format!("Bearer {}", self.token) {
            return (401, String::from("{\"error\":\"Unauthorized\"}"), None);
        }
        let path = match request.url.strip_prefix(self.base.as_str()) {
            Some(path) => path,
            None => return (404, String::from("{\"error\":\"Not Found\"}"), None),
        };
        let parts: Vec<&str> = path.split('/').collect();
        match (request.method, parts.as_slice()) {
            (Method::Post, ["", "SET", key, value, "EX", seconds]) => match seconds.parse::<u64>() {
                Ok(seconds) if seconds > 0 => {
                    self.entries.insert(String::from(*key), (String::from(*value), self.now + seconds));
                    (200, String::from("{\"result\":\"OK\"}"), Some(Some(String::from("OK"))))
                }
                _ => (400, String::from("{\"error\":\"ERR invalid expire time\"}"), None),
            },
            (Method::Get, ["", "GET", key]) => (200, String::new(), Some(self.live(key))),
            _ => (400, String::from("{\"error\":\"ERR syntax error\"}"), None),
        }
    }

    fn perform(&mut self, request: Request) -> Event {
        self.requests += 1;
        match request {
            Request::Run(Command::SetEx { key, value, seconds }) => {
                if seconds == 0 {
                    Event::Refused(String::from("ERR invalid expire time in 'setex' command"))
                } else {
                    self.entries.insert(key, (value, self.now + seconds as u64));
                    Event::Stored
                }
            }
            Request::Run(Command::Get { key }) => Event::Fetched(self.live(&key)),
            Request::Send(request) => {
                let response = self.answer(&request);
                let status = response.0;
                self.pending = Some(response);
                Event::Status(status)
            }
            Request::ReadText => match self.pending.take() {
                Some((_, text, _)) => Event::Text(text),
                None => Event::Failed(String::from("no body to read")),
            },
            Request::ReadReply => match self.pending.take() {
                Some((_, _, Some(result))) => Event::Reply(RemoteReply { result }),
                Some(_) => Event::Malformed(String::from("error decoding response body")),
                None => Event::Failed(String::from("no body to read")),
            },
        }
    }

    fn set(&mut self, store: &CacheStore, key: &str, value: &str, seconds: usize) -> Result<(), CacheError> {
        let mut step = store.set(key, value, seconds);
        loop {
            match step {
                SetStep::Done(result) => return result,
                SetStep::Continue(phase, request) => {
                    let event = self.perform(request);
                    step = continue_set(phase, event);
                }
            }
        }
    }

    fn get(&mut self, store: &CacheStore, key: &str) -> Result<Option<String>, CacheError> {
        let mut step = store.get(key);
        loop {
            match step {
                GetStep::Done(result) => return result,
                GetStep::Continue(phase, request) => {
                    let event = self.perform(request);
                    step = continue_get(phase, event);
                }
            }
        }
    }
}

fn remote(token: &str) -> CacheStore {
    CacheStore::build(&RedisSettings {
        uri: String::new(),
        upstash_redis_rest_url: Some(String::from("https://cache.example")),
        upstash_redis_rest_token: Some(String::from(token)),
    })
}

fn direct() -> CacheStore {
    CacheStore::build(&RedisSettings {
        uri: String::from("redis://127.0.0.1:6379"),
        upstash_redis_rest_url: None,
        upstash_redis_rest_token: None,
    })
}

fn stores() -> Vec<CacheStore> {
    vec![direct(), remote("s3cret")]
}

#[test]
fn set_then_get_returns_the_value() {
    for store in stores() {
        let mut fake = Fake::new("https://cache.example", "s3cret");
        assert_eq!(fake.set(&store, "session:42", "active", 60), Ok(()));
        assert_eq!(fake.get(&store, "session:42"), Ok(Some(String::from("active"))));
    }
}

#[test]
fn set_then_get_for_many_keys_values_and_times() {
    let texts = ["", "a", "session:42", "with space", "ünï", "q?x=1", "50%"];
    for store in stores() {
        for key in texts {
            for value in texts {
                for seconds in [1usize, 2, 60, 86_400] {
                    let mut fake = Fake::new("https://cache.example", "s3cret");
                    assert_eq!(fake.set(&store, key, value, seconds), Ok(()));
                    assert_eq!(fake.get(&store, key), Ok(Some(String::from(value))));
                }
            }
        }
    }
}

#[test]
fn a_later_set_replaces_the_value() {
    for store in stores() {
        let mut fake = Fake::new("https://cache.example", "s3cret");
        assert_eq!(fake.set(&store, "k", "one", 60), Ok(()));
        assert_eq!(fake.set(&store, "k", "two", 60), Ok(()));
        assert_eq!(fake.get(&store, "k"), Ok(Some(String::from("two"))));
    }
}

#[test]
fn get_of_a_key_never_set_is_none() {
    for store in stores() {
        let mut fake = Fake::new("https://cache.example", "s3cret");
        assert_eq!(fake.get(&store, "missing"), Ok(None));
        assert_eq!(fake.set(&store, "other", "v", 60), Ok(()));
        assert_eq!(fake.get(&store, "missing"), Ok(None));
    }
}

#[test]
fn get_after_the_time_has_run_out_is_none() {
    for store in stores() {
        let mut fake = Fake::new("https://cache.example", "s3cret");
        assert_eq!(fake.set(&store, "k", "v", 60), Ok(()));
        fake.now += 59;
        assert_eq!(fake.get(&store, "k"), Ok(Some(String::from("v"))));
        fake.now += 1;
        assert_eq!(fake.get(&store, "k"), Ok(None));
        fake.now += 1_000;
        assert_eq!(fake.get(&store, "k"), Ok(None));
    }
}

#[test]
fn set_for_zero_seconds_is_refused_by_the_backend() {
    let mut fake = Fake::new("https://cache.example", "s3cret");
    assert_eq!(
        fake.set(&direct(), "k", "v", 0),
        Err(CacheError::Backend(String::from("ERR invalid expire time in 'setex' command")))
    );
    assert_eq!(
        fake.set(&remote("s3cret"), "k", "v", 0),
        Err(CacheError::Backend(String::from("{\"error\":\"ERR invalid expire time\"}")))
    );
    assert_eq!(fake.get(&direct(), "k"), Ok(None));
}

#[test]
fn remote_key_with_a_separator_is_refused() {
    let store = remote("s3cret");
    let mut fake = Fake::new("https://cache.example", "s3cret");
    assert_eq!(
        fake.set(&store, "a/b", "v", 60),
        Err(CacheError::Backend(String::from("{\"error\":\"ERR syntax error\"}")))
    );
    assert_eq!(
        fake.set(&store, "k", "x/y", 60),
        Err(CacheError::Backend(String::from("{\"error\":\"ERR syntax error\"}")))
    );
    assert_eq!(
        fake.get(&store, "a/b"),
        Err(CacheError::Backend(String::from("{\"error\":\"ERR syntax error\"}")))
    );
    assert!(fake.entries.is_empty());
}

#[test]
fn direct_key_with_a_separator_round_trips() {
    let store = direct();
    let mut fake = Fake::new("https://cache.example", "s3cret");
    assert_eq!(fake.set(&store, "a/b", "x/y", 60), Ok(()));
    assert_eq!(fake.get(&store, "a/b"), Ok(Some(String::from("x/y"))));
}

#[test]
fn remote_with_the_wrong_credential_is_refused() {
    let store = remote("other");
    let mut fake = Fake::new("https://cache.example", "s3cret");
    assert_eq!(
        fake.set(&store, "k", "v", 60),
        Err(CacheError::Backend(String::from("{\"error\":\"Unauthorized\"}")))
    );
    assert_eq!(
        fake.get(&store, "k"),
        Err(CacheError::Backend(String::from("{\"error\":\"Unauthorized\"}")))
    );
}

#[test]
fn remote_with_a_credential_no_header_can_hold_sends_nothing() {
    let store = remote("two\nlines");
    let mut fake = Fake::new("https://cache.example", "two\nlines");
    assert_eq!(
        fake.set(&store, "k", "v", 60),
        Err(CacheError::Configuration(String::from("failed to parse header value")))
    );
    assert_eq!(
        fake.get(&store, "k"),
        Err(CacheError::Configuration(String::from("failed to parse header value")))
    );
    assert_eq!(fake.requests, 0);
}

#[test]
fn an_operation_takes_at_most_two_requests() {
    for store in stores() {
        let mut fake = Fake::new("https://cache.example", "s3cret");
        let _ = fake.set(&store, "k", "v", 60);
        assert!(fake.requests <= 2);
        fake.requests = 0;
        let _ = fake.get(&store, "k");
        assert!(fake.requests <= 2);
        fake.requests = 0;
        let _ = fake.get(&store, "a/b");
        assert!(fake.requests <= 2);
    }
}
