//! A periodic JSON poller: the configuration surface, the construction of the
//! HTTP client, the classification of one fetch's outcome and the decisions of
//! the polling loop, each with its contract.

mod config;
mod fetch;
mod poller;
mod polling;

pub use config::{
    PollerConfig, POLL_INTERVAL_MS, POOL_MAX_IDLE_PER_HOST, POOL_IDLE_TIMEOUT_SECS,
    REQUEST_TIMEOUT_MS, TCP_KEEPALIVE_SECS, lemma_default_config, lemma_overridden_config,
};
pub use poller::{BuildError, JsonPoller, JsonPollerBuilder};
pub use fetch::{FetchError, is_success_spec, is_success_status, check_status, check_sent, check_decoded};
pub use polling::{
    LoopAction, LoopEvent, LoopPhase, PollLoop, elapsed_spec, transition, lemma_dispatch_only_on_success,
    lemma_failure_keeps_polling, lemma_one_handler_at_a_time, lemma_missed_ticks_dropped, run_phase, handler_calls, handler_returns,
    lemma_handler_calls_serialized,
};
