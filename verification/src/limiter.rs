//! Stateless description of a dual-bucket rate limiter: what a configuration
//! holds, how a new one is merged into it, and which parameters a live limiter
//! is then constructed with.
//!
//! The live limiter itself, with its refill timing and token accounting, is
//! not part of this crate. A configuration is resolved here to the exact
//! parameters of the limiter's constructor; whoever owns the limiter makes the
//! call.

use vstd::prelude::*;

verus! {

/// Everything needed to build one live token bucket.
///
/// The fields are plain data: zero is a legal value of each, and no range is
/// checked here.
#[derive(Clone, Copy, Debug, PartialEq, Structural)]
pub struct TokenBucketConfig {
    /// Capacity of the bucket: the most tokens it can hold.
    pub size: u64,
    /// Extra tokens that can be spent once, before the steady refill applies.
    /// `None` configures no such allowance, which is not the same as `Some(0)`.
    pub one_time_burst: Option<u64>,
    /// Milliseconds in which an empty bucket fills up completely.
    pub refill_time: u64,
}

impl TokenBucketConfig {
    /// The all-zero bucket, which stands for an axis that is not throttled.
    pub open spec fn unthrottled() -> TokenBucketConfig {
        TokenBucketConfig { size: 0, one_time_burst: None, refill_time: 0 }
    }

    /// The parameters of the live bucket that this configuration describes:
    /// its three values, each unchanged.
    pub open spec fn params(self) -> TokenBucketParams {
        TokenBucketParams {
            size: self.size,
            one_time_burst: self.one_time_burst,
            refill_time: self.refill_time,
        }
    }
}

impl Default for TokenBucketConfig {
    /// The bucket with no capacity, no burst allowance and no refill time.
    fn default() -> (config: TokenBucketConfig)
        ensures
            config == TokenBucketConfig::unthrottled(),
    {
        TokenBucketConfig { size: 0, one_time_burst: None, refill_time: 0 }
    }
}

/// The parameters that one live token bucket is constructed with.
#[derive(Clone, Copy, Debug, PartialEq, Structural)]
pub struct TokenBucketParams {
    /// Total capacity, in tokens.
    pub size: u64,
    /// One-time burst allowance, where one is configured.
    pub one_time_burst: Option<u64>,
    /// Milliseconds of a complete refill.
    pub refill_time: u64,
}

impl TokenBucketParams {
    /// A burst allowance counted in tokens: none is zero tokens.
    pub open spec fn burst_tokens(burst: Option<u64>) -> u64 {
        match burst {
            Some(tokens) => tokens,
            None => 0,
        }
    }

    /// The capacity that the bucket starts with.
    pub fn capacity(&self) -> (tokens: u64)
        ensures
            tokens == self.size,
    {
        self.size
    }

    /// The burst allowance that the bucket starts with: zero where none is
    /// configured.
    pub fn one_time_burst(&self) -> (tokens: u64)
        ensures
            tokens == Self::burst_tokens(self.one_time_burst),
    {
        match self.one_time_burst {
            Some(tokens) => tokens,
            None => 0,
        }
    }

    /// Milliseconds in which the bucket refills completely.
    pub fn refill_time_ms(&self) -> (millis: u64)
        ensures
            millis == self.refill_time,
    {
        self.refill_time
    }
}

impl From<TokenBucketConfig> for TokenBucketParams {
    /// Hands the three configured values on, each unchanged: the capacity,
    /// the refill time, and the burst allowance, an absent one as absent.
    fn from(config: TokenBucketConfig) -> (params: TokenBucketParams)
        ensures
            params == config.params(),
            params.size == config.size,
            params.one_time_burst == config.one_time_burst,
            params.refill_time == config.refill_time,
    {
        TokenBucketParams {
            size: config.size,
            one_time_burst: config.one_time_burst,
            refill_time: config.refill_time,
        }
    }
}

impl vstd::std_specs::convert::FromSpecImpl<TokenBucketConfig> for TokenBucketParams {
    open spec fn obeys_from_spec() -> bool {
        true
    }

    open spec fn from_spec(config: TokenBucketConfig) -> TokenBucketParams {
        config.params()
    }
}

/// Everything needed to build one live rate limiter: a bucket for bandwidth
/// and a bucket for operations. An axis that is `None` is not throttled.
#[derive(Clone, Copy, Debug, PartialEq, Structural)]
pub struct RateLimiterConfig {
    /// The bucket that limits bytes per second.
    pub bandwidth: Option<TokenBucketConfig>,
    /// The bucket that limits operations per second.
    pub ops: Option<TokenBucketConfig>,
}

impl Default for RateLimiterConfig {
    /// The configuration that throttles nothing: both axes absent.
    fn default() -> (config: RateLimiterConfig)
        ensures
            config.bandwidth is None,
            config.ops is None,
    {
        RateLimiterConfig { bandwidth: None, ops: None }
    }
}

impl RateLimiterConfig {
    /// One axis after a merge: the new bucket where one is given, whole, and
    /// the current one where none is.
    pub open spec fn merged_axis(
        current: Option<TokenBucketConfig>,
        new: Option<TokenBucketConfig>,
    ) -> Option<TokenBucketConfig> {
        if new is Some {
            new
        } else {
            current
        }
    }

    /// This configuration with `new_config` merged in, axis by axis.
    pub open spec fn merged(self, new_config: RateLimiterConfig) -> RateLimiterConfig {
        RateLimiterConfig {
            bandwidth: Self::merged_axis(self.bandwidth, new_config.bandwidth),
            ops: Self::merged_axis(self.ops, new_config.ops),
        }
    }

    /// The parameters of the live limiter that this configuration describes.
    pub open spec fn params(self) -> RateLimiterParams {
        RateLimiterParams {
            bandwidth: RateLimiterParams::axis(self.bandwidth),
            ops: RateLimiterParams::axis(self.ops),
        }
    }

    /// Updates the configuration, merging in the options of `new_config`.
    ///
    /// An axis that `new_config` holds replaces the current one as a whole; an
    /// axis that it leaves out stays as it is. Nothing is merged inside a
    /// bucket.
    pub fn update(&mut self, new_config: &RateLimiterConfig)
        ensures
            *final(self) == old(self).merged(*new_config),
    {
        if new_config.bandwidth.is_some() {
            self.bandwidth = new_config.bandwidth;
        }
        if new_config.ops.is_some() {
            self.ops = new_config.ops;
        }
    }
}

/// The parameters that a live rate limiter is constructed with: those of
/// its bandwidth bucket, then those of its operations bucket.
#[derive(Clone, Copy, Debug, PartialEq, Structural)]
pub struct RateLimiterParams {
    /// Parameters of the bucket that limits bytes.
    pub bandwidth: TokenBucketParams,
    /// Parameters of the bucket that limits operations.
    pub ops: TokenBucketParams,
}

impl RateLimiterParams {
    /// The parameters for one axis: those of its bucket, or the all-zero ones
    /// where the axis is absent.
    pub open spec fn axis(config: Option<TokenBucketConfig>) -> TokenBucketParams {
        match config {
            Some(bucket) => bucket.params(),
            None => TokenBucketConfig::unthrottled().params(),
        }
    }
}

impl From<RateLimiterConfig> for RateLimiterParams {
    /// Resolves both axes, an absent one to the all-zero bucket. No
    /// configuration is turned down: odd values, zero among them, are handed
    /// on as they are.
    fn from(config: RateLimiterConfig) -> (params: RateLimiterParams)
        ensures
            params == config.params(),
            params.bandwidth == RateLimiterParams::axis(config.bandwidth),
            params.ops == RateLimiterParams::axis(config.ops),
    {
        let bandwidth = match config.bandwidth {
            Some(bucket) => bucket,
            None => TokenBucketConfig::default(),
        };
        let ops = match config.ops {
            Some(bucket) => bucket,
            None => TokenBucketConfig::default(),
        };
        RateLimiterParams {
            bandwidth: TokenBucketParams::from(bandwidth),
            ops: TokenBucketParams::from(ops),
        }
    }
}

impl vstd::std_specs::convert::FromSpecImpl<RateLimiterConfig> for RateLimiterParams {
    open spec fn obeys_from_spec() -> bool {
        true
    }

    open spec fn from_spec(config: RateLimiterConfig) -> RateLimiterParams {
        config.params()
    }
}

/// An update leaves the bandwidth axis as it was exactly when the new
/// configuration holds none, and otherwise puts the new bucket in its place,
/// whole. A new bucket equal to the current axis is left aside: it replaces
/// the axis without a visible change.
pub proof fn lemma_update_bandwidth(base: RateLimiterConfig, patch: RateLimiterConfig)
    requires
        patch.bandwidth is Some ==> patch.bandwidth != base.bandwidth,
    ensures
        base.merged(patch).bandwidth == base.bandwidth <==> patch.bandwidth is None,
        patch.bandwidth is Some ==> base.merged(patch).bandwidth == patch.bandwidth,
{
}

/// An update leaves the operations axis as it was exactly when the new
/// configuration holds none, and otherwise puts the new bucket in its place,
/// whole. A new bucket equal to the current axis is left aside: it replaces
/// the axis without a visible change.
pub proof fn lemma_update_ops(base: RateLimiterConfig, patch: RateLimiterConfig)
    requires
        patch.ops is Some ==> patch.ops != base.ops,
    ensures
        base.merged(patch).ops == base.ops <==> patch.ops is None,
        patch.ops is Some ==> base.merged(patch).ops == patch.ops,
{
}

/// An absent axis resolves to the all-zero bucket, with no capacity, no burst
/// allowance and no refill time, whatever the other axis holds. So a
/// configuration with both axes absent describes a limiter that throttles
/// nothing.
pub proof fn lemma_absent_axis_unthrottled(config: RateLimiterConfig)
    ensures
        config.bandwidth is None ==> config.params().bandwidth == (TokenBucketParams {
            size: 0,
            one_time_burst: None,
            refill_time: 0,
        }),
        config.ops is None ==> config.params().ops == (TokenBucketParams {
            size: 0,
            one_time_burst: None,
            refill_time: 0,
        }),
{
}

/// Resolving a bucket preserves its capacity and its refill time, and its
/// burst allowance counted in tokens, where an absent one counts as zero.
pub proof fn lemma_params_preserve_bucket(config: TokenBucketConfig)
    ensures
        config.params().size == config.size,
        config.params().refill_time == config.refill_time,
        config.params().one_time_burst == config.one_time_burst,
        TokenBucketParams::burst_tokens(config.params().one_time_burst) == (
        match config.one_time_burst {
            Some(tokens) => tokens,
            None => 0,
        }),
{
}

} // verus!
