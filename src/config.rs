use vstd::prelude::*;

verus! {

/// Time between two fetch attempts unless overridden, in milliseconds.
pub const POLL_INTERVAL_MS: u64 = 500;

/// Idle connections kept per host unless overridden.
pub const POOL_MAX_IDLE_PER_HOST: usize = 1;

/// How long an idle pooled connection is kept unless overridden, in seconds.
pub const POOL_IDLE_TIMEOUT_SECS: u64 = 90;

/// Deadline of one request unless overridden, in milliseconds.
pub const REQUEST_TIMEOUT_MS: u64 = 1000;

/// Interval of TCP keepalive probes unless overridden, in seconds.
pub const TCP_KEEPALIVE_SECS: u64 = 60;

/// The six settings of a poller, as mathematical values.
pub struct PollerConfig {
    pub url: Seq<char>,
    pub poll_interval_ms: u64,
    pub pool_max_idle_per_host: usize,
    pub pool_idle_timeout_secs: u64,
    pub request_timeout_ms: u64,
    pub tcp_keepalive_secs: u64,
}

impl PollerConfig {
    /// The configuration for `url` with every other setting at its default.
    pub open spec fn defaults(url: Seq<char>) -> PollerConfig {
        PollerConfig {
            url,
            poll_interval_ms: POLL_INTERVAL_MS,
            pool_max_idle_per_host: POOL_MAX_IDLE_PER_HOST,
            pool_idle_timeout_secs: POOL_IDLE_TIMEOUT_SECS,
            request_timeout_ms: REQUEST_TIMEOUT_MS,
            tcp_keepalive_secs: TCP_KEEPALIVE_SECS,
        }
    }

    pub open spec fn with_poll_interval_ms(self, ms: u64) -> PollerConfig {
        PollerConfig { poll_interval_ms: ms, ..self }
    }

    pub open spec fn with_pool_max_idle_per_host(self, max: usize) -> PollerConfig {
        PollerConfig { pool_max_idle_per_host: max, ..self }
    }

    pub open spec fn with_pool_idle_timeout_secs(self, secs: u64) -> PollerConfig {
        PollerConfig { pool_idle_timeout_secs: secs, ..self }
    }

    pub open spec fn with_request_timeout_ms(self, ms: u64) -> PollerConfig {
        PollerConfig { request_timeout_ms: ms, ..self }
    }

    pub open spec fn with_tcp_keepalive_secs(self, secs: u64) -> PollerConfig {
        PollerConfig { tcp_keepalive_secs: secs, ..self }
    }
}

/// A configuration with no overrides polls every 500 ms, targets the URL it
/// was given, and holds the default of every other setting.
pub proof fn lemma_default_config(url: Seq<char>)
    ensures
        PollerConfig::defaults(url).url == url,
        PollerConfig::defaults(url).poll_interval_ms == 500,
        PollerConfig::defaults(url).pool_max_idle_per_host == 1,
        PollerConfig::defaults(url).pool_idle_timeout_secs == 90,
        PollerConfig::defaults(url).request_timeout_ms == 1000,
        PollerConfig::defaults(url).tcp_keepalive_secs == 60,
{
}

/// Overriding the poll interval, the request timeout, or both, of a fresh
/// configuration sets exactly those settings, in either order, and leaves
/// every other setting at its default.
pub proof fn lemma_overridden_config(url: Seq<char>, poll: Option<u64>, timeout: Option<u64>)
    ensures
        ({
            let base = PollerConfig::defaults(url);
            let polled = match poll {
                Some(ms) => base.with_poll_interval_ms(ms),
                None => base,
            };
            let timed = match timeout {
                Some(ms) => base.with_request_timeout_ms(ms),
                None => base,
            };
            let both = match timeout {
                Some(ms) => polled.with_request_timeout_ms(ms),
                None => polled,
            };
            let both_swapped = match poll {
                Some(ms) => timed.with_poll_interval_ms(ms),
                None => timed,
            };
            &&& both == both_swapped
            &&& both == PollerConfig {
                url,
                poll_interval_ms: match poll {
                    Some(ms) => ms,
                    None => POLL_INTERVAL_MS,
                },
                pool_max_idle_per_host: POOL_MAX_IDLE_PER_HOST,
                pool_idle_timeout_secs: POOL_IDLE_TIMEOUT_SECS,
                request_timeout_ms: match timeout {
                    Some(ms) => ms,
                    None => REQUEST_TIMEOUT_MS,
                },
                tcp_keepalive_secs: TCP_KEEPALIVE_SECS,
            }
        }),
{
}

} // verus!
