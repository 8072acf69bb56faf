//! Settings, as a configuration loader hands them over. Secrets arrive
//! exposed: nothing here prints or stores them beyond the handles built from
//! them.

use vstd::prelude::*;

verus! {

/// Where the cache is. The remote backend is chosen by giving both its URL
/// and its credential; `uri` addresses the local server and is read only when
/// the remote backend is not chosen.
pub struct RedisSettings {
    pub uri: String,
    pub upstash_redis_rest_url: Option<String>,
    pub upstash_redis_rest_token: Option<String>,
}

impl RedisSettings {
    pub open spec fn remote_chosen(&self) -> bool {
        self.upstash_redis_rest_url is Some && self.upstash_redis_rest_token is Some
    }

    /// Whether the remote backend is chosen: its URL and its credential are
    /// both present.
    #[verifier::when_used_as_spec(remote_chosen)]
    pub fn use_upstash(&self) -> (chosen: bool)
        ensures
            chosen == self.remote_chosen(),
    {
        self.upstash_redis_rest_url.is_some() && self.upstash_redis_rest_token.is_some()
    }

    /// The connection string of the local server.
    pub fn connection_string(&self) -> (uri: String)
        ensures
            uri@ == self.uri@,
    {
        self.uri.clone()
    }
}

/// Where the relational store is: the connection string of the service's
/// database, and that of the server alone.
pub struct DatabaseSettings {
    pub database: String,
    pub server: String,
}

impl DatabaseSettings {
    /// The connection string of the service's database.
    pub fn connection_string(&self) -> (target: String)
        ensures
            target@ == self.database@,
    {
        self.database.clone()
    }

    /// The connection string of the server, naming no database.
    pub fn connection_string_without_db(&self) -> (target: String)
        ensures
            target@ == self.server@,
    {
        self.server.clone()
    }
}

} // verus!
