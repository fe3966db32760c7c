//! The parameters of the feed.

use vstd::prelude::*;

verus! {

/// The parameters that are fixed when a service is built. Levels, rates and
/// shifts are fixed-point numbers in millionths; intervals are whole
/// milliseconds.
#[derive(Debug, Clone, Copy, PartialEq, Eq, Structural)]
pub struct SentimentConfig {
    /// Time between two engine ticks, in milliseconds.
    pub tick_interval_ms: u32,
    /// The level that the market mood is pulled toward.
    pub mean: i32,
    /// Strength of the pull toward `mean`, per second.
    pub reversion_speed: i32,
    /// Scale of the random shocks; must be positive.
    pub volatility: i32,
    /// Time between two datagrams of one instrument, in milliseconds.
    pub broadcast_interval_ms: u32,
    /// Hop limit of the multicast datagrams.
    pub multicast_ttl: u32,
    /// Baseline shift added to every instrument's sentiment.
    pub offset: i32,
}

impl SentimentConfig {
    /// The parameters used when none are given: a 100 ms tick, mean 0.0,
    /// reversion speed 0.5, volatility 0.2, a 5 ms broadcast interval,
    /// one hop, and a baseline shift of 0.5.
    pub open spec fn standard() -> SentimentConfig {
        SentimentConfig {
            tick_interval_ms: 100,
            mean: 0,
            reversion_speed: 500_000,
            volatility: 200_000,
            broadcast_interval_ms: 5,
            multicast_ttl: 1,
            offset: 500_000,
        }
    }

    /// A configuration is usable when its volatility is strictly positive.
    pub open spec fn valid(&self) -> bool {
        self.volatility > 0
    }

    /// Tells whether the configuration is usable.
    pub fn is_valid(&self) -> (r: bool)
        ensures
            r == self.valid(),
    {
        self.volatility > 0
    }
}

impl Default for SentimentConfig {
    fn default() -> (r: SentimentConfig)
        ensures
            r == SentimentConfig::standard(),
    {
        SentimentConfig {
            tick_interval_ms: 100,
            mean: 0,
            reversion_speed: 500_000,
            volatility: 200_000,
            broadcast_interval_ms: 5,
            multicast_ttl: 1,
            offset: 500_000,
        }
    }
}

} // verus!
