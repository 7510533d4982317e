use crate::config::{
    PollerConfig, POLL_INTERVAL_MS, POOL_IDLE_TIMEOUT_SECS, POOL_MAX_IDLE_PER_HOST,
    REQUEST_TIMEOUT_MS, TCP_KEEPALIVE_SECS,
};
use std::marker::PhantomData;
use std::time::Duration;
use vstd::prelude::*;

verus! {

#[verifier::external_type_specification]
#[verifier::external_body]
pub struct ExClient(reqwest::Client);

#[verifier::external_type_specification]
#[verifier::external_body]
pub struct ExError(reqwest::Error);

/// Relies on reqwest's `ClientBuilder`: the four settings are handed to
/// `pool_max_idle_per_host`, `pool_idle_timeout`, `timeout` and `tcp_keepalive`,
/// and `build` either returns the client or fails when the TLS backend or the
/// system resolver cannot be set up, which depends on the machine.
#[verifier::external_body]
fn build_client(
    max_idle_per_host: usize,
    idle_timeout_secs: u64,
    request_timeout_ms: u64,
    keepalive_secs: u64,
) -> (r: Result<reqwest::Client, reqwest::Error>) {
    reqwest::Client::builder()
        .pool_max_idle_per_host(max_idle_per_host)
        .pool_idle_timeout(Duration::from_secs(idle_timeout_secs))
        .timeout(Duration::from_millis(request_timeout_ms))
        .tcp_keepalive(Duration::from_secs(keepalive_secs))
        .build()
}

/// Why a poller could not be built.
#[derive(Debug)]
pub enum BuildError {
    /// The HTTP client could not be constructed.
    Client(reqwest::Error),
}

/// A poller of one URL whose responses decode as `T`. Its settings are fixed
/// once it is built; the client owns the connection pool.
pub struct JsonPoller<T> {
    client: reqwest::Client,
    url: String,
    poll_interval_ms: u64,
    pool_max_idle_per_host: usize,
    pool_idle_timeout_secs: u64,
    request_timeout_ms: u64,
    tcp_keepalive_secs: u64,
    _payload: PhantomData<T>,
}

impl<T> View for JsonPoller<T> {
    type V = PollerConfig;

    closed spec fn view(&self) -> PollerConfig {
        PollerConfig {
            url: self.url@,
            poll_interval_ms: self.poll_interval_ms,
            pool_max_idle_per_host: self.pool_max_idle_per_host,
            pool_idle_timeout_secs: self.pool_idle_timeout_secs,
            request_timeout_ms: self.request_timeout_ms,
            tcp_keepalive_secs: self.tcp_keepalive_secs,
        }
    }
}

/// Accumulates overrides over the default settings before a poller is built.
pub struct JsonPollerBuilder<T> {
    url: String,
    poll_interval_ms: u64,
    pool_max_idle_per_host: usize,
    pool_idle_timeout_secs: u64,
    request_timeout_ms: u64,
    tcp_keepalive_secs: u64,
    _payload: PhantomData<T>,
}

impl<T> View for JsonPollerBuilder<T> {
    type V = PollerConfig;

    closed spec fn view(&self) -> PollerConfig {
        PollerConfig {
            url: self.url@,
            poll_interval_ms: self.poll_interval_ms,
            pool_max_idle_per_host: self.pool_max_idle_per_host,
            pool_idle_timeout_secs: self.pool_idle_timeout_secs,
            request_timeout_ms: self.request_timeout_ms,
            tcp_keepalive_secs: self.tcp_keepalive_secs,
        }
    }
}

impl<T> JsonPollerBuilder<T> {
    /// A builder for `url` with every other setting at its default. The URL is
    /// not checked here: a malformed one fails each request.
    pub fn new(url: &str) -> (r: Self)
        ensures
            r@ == PollerConfig::defaults(url@),
    {
        JsonPollerBuilder {
            url: url.to_owned(),
            poll_interval_ms: POLL_INTERVAL_MS,
            pool_max_idle_per_host: POOL_MAX_IDLE_PER_HOST,
            pool_idle_timeout_secs: POOL_IDLE_TIMEOUT_SECS,
            request_timeout_ms: REQUEST_TIMEOUT_MS,
            tcp_keepalive_secs: TCP_KEEPALIVE_SECS,
            _payload: PhantomData,
        }
    }

    /// Sets the time between fetch attempts; zero is accepted.
    pub fn poll_interval_ms(self, ms: u64) -> (r: Self)
        ensures
            r@ == self@.with_poll_interval_ms(ms),
    {
        JsonPollerBuilder { poll_interval_ms: ms, ..self }
    }

    /// Sets how many idle connections per host the client keeps.
    pub fn pool_max_idle_per_host(self, max: usize) -> (r: Self)
        ensures
            r@ == self@.with_pool_max_idle_per_host(max),
    {
        JsonPollerBuilder { pool_max_idle_per_host: max, ..self }
    }

    /// Sets how long an idle pooled connection is kept.
    pub fn pool_idle_timeout_secs(self, secs: u64) -> (r: Self)
        ensures
            r@ == self@.with_pool_idle_timeout_secs(secs),
    {
        JsonPollerBuilder { pool_idle_timeout_secs: secs, ..self }
    }

    /// Sets the deadline of each request.
    pub fn request_timeout_ms(self, ms: u64) -> (r: Self)
        ensures
            r@ == self@.with_request_timeout_ms(ms),
    {
        JsonPollerBuilder { request_timeout_ms: ms, ..self }
    }

    /// Sets the interval of TCP keepalive probes.
    pub fn tcp_keepalive_secs(self, secs: u64) -> (r: Self)
        ensures
            r@ == self@.with_tcp_keepalive_secs(secs),
    {
        JsonPollerBuilder { tcp_keepalive_secs: secs, ..self }
    }
}

impl<T> JsonPollerBuilder<T> {
    /// Builds the HTTP client with the pool, timeout and keepalive settings
    /// and returns a poller that carries every setting of this builder. No
    /// request is made here; the only failure is the client's construction.
    pub fn build(self) -> (r: Result<JsonPoller<T>, BuildError>)
        ensures
            r matches Ok(p) ==> p@ == self@,
    {
        match build_client(
            self.pool_max_idle_per_host,
            self.pool_idle_timeout_secs,
            self.request_timeout_ms,
            self.tcp_keepalive_secs,
        ) {
            Ok(client) => Ok(
                JsonPoller {
                    client,
                    url: self.url,
                    poll_interval_ms: self.poll_interval_ms,
                    pool_max_idle_per_host: self.pool_max_idle_per_host,
                    pool_idle_timeout_secs: self.pool_idle_timeout_secs,
                    request_timeout_ms: self.request_timeout_ms,
                    tcp_keepalive_secs: self.tcp_keepalive_secs,
                    _payload: PhantomData,
                },
            ),
            Err(e) => Err(BuildError::Client(e)),
        }
    }
}

impl<T> JsonPoller<T> {
    /// A builder for `url` with every other setting at its default.
    pub fn builder(url: &str) -> (r: JsonPollerBuilder<T>)
        ensures
            r@ == PollerConfig::defaults(url@),
    {
        JsonPollerBuilder::new(url)
    }

    /// The URL that every fetch requests.
    pub fn url(&self) -> (r: &str)
        ensures
            r@ == self@.url,
    {
        self.url.as_str()
    }

    /// The time between two fetch attempts, in milliseconds.
    pub fn poll_interval_ms(&self) -> (r: u64)
        ensures
            r == self@.poll_interval_ms,
    {
        self.poll_interval_ms
    }

    /// How many idle connections per host the client keeps.
    pub fn pool_max_idle_per_host(&self) -> (r: usize)
        ensures
            r == self@.pool_max_idle_per_host,
    {
        self.pool_max_idle_per_host
    }

    /// How long the client keeps an idle pooled connection, in seconds.
    pub fn pool_idle_timeout_secs(&self) -> (r: u64)
        ensures
            r == self@.pool_idle_timeout_secs,
    {
        self.pool_idle_timeout_secs
    }

    /// The deadline of each request, in milliseconds.
    pub fn request_timeout_ms(&self) -> (r: u64)
        ensures
            r == self@.request_timeout_ms,
    {
        self.request_timeout_ms
    }

    /// The interval of TCP keepalive probes, in seconds.
    pub fn tcp_keepalive_secs(&self) -> (r: u64)
        ensures
            r == self@.tcp_keepalive_secs,
    {
        self.tcp_keepalive_secs
    }

    /// The HTTP client, configured when the poller was built.
    pub fn client(&self) -> &reqwest::Client {
        &self.client
    }
}

} // verus!
