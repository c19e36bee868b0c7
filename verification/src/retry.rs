//! The retry configuration and the policy that applies when none is given.

use crate::backend::{backoff_policy, exponential_backoff};
use reqwest_retry::policies::ExponentialBackoff;
use vstd::prelude::*;

verus! {

/// Retries allowed when no retry configuration is given.
pub const DEFAULT_MAX_RETRIES: u32 = 3;

/// Shortest delay between two attempts unless configured, in milliseconds.
pub const DEFAULT_MIN_DELAY_MS: u32 = 1_000;

/// Longest delay between two attempts unless configured, in milliseconds.
pub const DEFAULT_MAX_DELAY_MS: u32 = 1_800_000;

/// How the delay before a retry is randomised.
#[derive(Clone, Copy, Debug, PartialEq, Eq, Structural)]
pub enum Jitter {
    /// The computed delay is used as it is.
    Off,
    /// A delay between zero and the computed one.
    Full,
    /// A delay between the shortest delay and the computed one.
    Bounded,
}

/// A retry configuration as contracts see it.
pub struct RetryConfigView {
    pub min_delay_ms: u32,
    pub max_delay_ms: u32,
    pub max_retries: u32,
    pub jitter: Jitter,
}

impl RetryConfigView {
    /// The shortest delay is not above the longest.
    pub open spec fn wf(self) -> bool {
        self.min_delay_ms <= self.max_delay_ms
    }

    /// The default bounds and jitter with `max_retries` retries.
    pub open spec fn with_max_retries(max_retries: u32) -> RetryConfigView {
        RetryConfigView {
            min_delay_ms: DEFAULT_MIN_DELAY_MS,
            max_delay_ms: DEFAULT_MAX_DELAY_MS,
            max_retries,
            jitter: Jitter::Full,
        }
    }

    /// The policy that applies when no retry configuration is given.
    pub open spec fn default_policy() -> RetryConfigView {
        Self::with_max_retries(DEFAULT_MAX_RETRIES)
    }

    /// The backoff policy of this shape, as the retry middleware takes it.
    pub open spec fn backoff(self) -> ExponentialBackoff {
        backoff_policy(self.min_delay_ms, self.max_delay_ms, self.jitter, self.max_retries)
    }
}

/// The shape of an exponential backoff: the bounds of the delay between two
/// attempts, how many retries follow the first attempt, and the jitter.
///
/// The shortest delay is never above the longest. Delays are whole
/// milliseconds, up to about 49 days: short enough that a delay doubled for
/// every retry made cannot run out of the range of a duration.
#[derive(Clone, Copy, Debug, PartialEq, Eq)]
pub struct RetryConfig {
    min_delay_ms: u32,
    max_delay_ms: u32,
    max_retries: u32,
    jitter: Jitter,
}

impl View for RetryConfig {
    type V = RetryConfigView;

    closed spec fn view(&self) -> RetryConfigView {
        RetryConfigView {
            min_delay_ms: self.min_delay_ms,
            max_delay_ms: self.max_delay_ms,
            max_retries: self.max_retries,
            jitter: self.jitter,
        }
    }
}

impl RetryConfig {
    #[verifier::type_invariant]
    spec fn bounds_ordered(self) -> bool {
        self.min_delay_ms <= self.max_delay_ms
    }

    /// A configuration with the given bounds in milliseconds, retries and
    /// jitter, or `None` when the shortest delay is above the longest.
    pub fn new(min_delay_ms: u32, max_delay_ms: u32, max_retries: u32, jitter: Jitter) -> (cfg:
        Option<RetryConfig>)
        ensures
            cfg is Some <==> min_delay_ms <= max_delay_ms,
            cfg matches Some(c) ==> c@ == (RetryConfigView {
                min_delay_ms,
                max_delay_ms,
                max_retries,
                jitter,
            }),
    {
        if min_delay_ms <= max_delay_ms {
            Some(RetryConfig { min_delay_ms, max_delay_ms, max_retries, jitter })
        } else {
            None
        }
    }

    /// The default bounds and jitter with `max_retries` retries.
    pub fn with_max_retries(max_retries: u32) -> (cfg: RetryConfig)
        ensures
            cfg@ == RetryConfigView::with_max_retries(max_retries),
    {
        RetryConfig {
            min_delay_ms: DEFAULT_MIN_DELAY_MS,
            max_delay_ms: DEFAULT_MAX_DELAY_MS,
            max_retries,
            jitter: Jitter::Full,
        }
    }

    /// The policy that applies when no retry configuration is given:
    /// exponential backoff that gives up after `DEFAULT_MAX_RETRIES` retries.
    pub fn default_policy() -> (cfg: RetryConfig)
        ensures
            cfg@ == RetryConfigView::default_policy(),
    {
        RetryConfig::with_max_retries(DEFAULT_MAX_RETRIES)
    }

    /// The shortest delay between two attempts, in milliseconds.
    pub fn min_delay_ms(&self) -> (ms: u32)
        ensures
            ms == self@.min_delay_ms,
            self@.wf(),
    {
        proof {
            use_type_invariant(self);
        }
        self.min_delay_ms
    }

    /// The longest delay between two attempts, in milliseconds.
    pub fn max_delay_ms(&self) -> (ms: u32)
        ensures
            ms == self@.max_delay_ms,
            self@.wf(),
    {
        proof {
            use_type_invariant(self);
        }
        self.max_delay_ms
    }

    /// How many retries may follow the first attempt.
    pub fn max_retries(&self) -> (n: u32)
        ensures
            n == self@.max_retries,
    {
        self.max_retries
    }

    /// How the delays are randomised.
    pub fn jitter(&self) -> (jitter: Jitter)
        ensures
            jitter == self@.jitter,
    {
        self.jitter
    }

    /// The backoff policy of this shape, as the retry middleware takes it.
    pub fn backoff(&self) -> (policy: ExponentialBackoff)
        ensures
            policy == self@.backoff(),
    {
        proof {
            use_type_invariant(self);
        }
        exponential_backoff(self.min_delay_ms, self.max_delay_ms, self.jitter, self.max_retries)
    }
}

} // verus!
