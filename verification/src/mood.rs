//! The market mood: one shared level that reverts to a mean under random
//! shocks.

use vstd::prelude::*;
use crate::config::SentimentConfig;
use crate::units::{
    SCALE, clamp_unit, clamp_to_unit, div_toward_zero, floor_sqrt, isqrt, lemma_product_bound,
    lemma_trunc_div_bound, trunc_div,
};

verus! {

/// The square root of a tick interval in seconds, in millionths and
/// rounded down.
pub open spec fn sqrt_dt(tick_interval_ms: nat) -> nat {
    floor_sqrt(tick_interval_ms * 1_000_000_000)
}

/// The pull toward the mean over one tick,
/// `reversion_speed * (mean - mood) * dt`, rounded toward zero to a whole
/// number of millionths.
pub open spec fn reversion(cfg: SentimentConfig, mood: int) -> int {
    trunc_div(
        cfg.reversion_speed * (cfg.mean - mood) * cfg.tick_interval_ms,
        1_000_000_000,
    )
}

/// The random shock of one tick for a standard-normal draw `normal`,
/// `volatility * normal * sqrt(dt)`, rounded toward zero to a whole number
/// of millionths.
pub open spec fn diffusion(cfg: SentimentConfig, normal: int) -> int {
    trunc_div(
        cfg.volatility * normal * sqrt_dt(cfg.tick_interval_ms as nat),
        1_000_000_000_000,
    )
}

/// The mood after one tick: the old mood, moved by the pull and the shock,
/// then limited to the interval from -1.0 to 1.0.
pub open spec fn next_mood(cfg: SentimentConfig, mood: int, normal: int) -> int {
    clamp_unit(mood + reversion(cfg, mood) + diffusion(cfg, normal))
}

/// Whatever the parameters, the old mood and the draw, the mood after a
/// tick lies between -1.0 and 1.0.
pub proof fn lemma_next_mood_in_range(cfg: SentimentConfig, mood: int, normal: int)
    ensures
        -SCALE <= next_mood(cfg, mood, normal) <= SCALE,
{
}

/// The market mood, a level between -1.0 and 1.0.
#[derive(Debug)]
pub struct MarketMood {
    value: i64,
}

impl View for MarketMood {
    type V = int;

    closed spec fn view(&self) -> int {
        self.value as int
    }
}

impl MarketMood {
    /// The level lies between -1.0 and 1.0.
    pub open spec fn wf(&self) -> bool {
        -SCALE <= self@ <= SCALE
    }

    /// A neutral mood, 0.0.
    pub fn new() -> (r: MarketMood)
        ensures
            r.wf(),
            r@ == 0,
    {
        MarketMood { value: 0 }
    }

    /// The current level.
    pub fn value(&self) -> (r: i64)
        ensures
            r == self@,
            self.wf() ==> -SCALE <= r <= SCALE,
    {
        self.value
    }

    /// Moves the mood by one tick, given a standard-normal draw, and
    /// returns the new level.
    pub fn advance(&mut self, cfg: &SentimentConfig, normal: i64) -> (r: i64)
        requires
            old(self).wf(),
        ensures
            final(self).wf(),
            final(self)@ == next_mood(*cfg, old(self)@, normal as int),
            r == final(self)@,
    {
        let pull: i128 = pull_toward_mean(cfg, self.value);
        let shock: i128 = shock_of(cfg, normal);
        let next: i64 = clamp_to_unit(self.value as i128 + pull + shock);
        self.value = next;
        next
    }
}

/// Computes the pull toward the mean over one tick.
fn pull_toward_mean(cfg: &SentimentConfig, mood: i64) -> (r: i128)
    requires
        -SCALE <= mood <= SCALE,
    ensures
        r == reversion(*cfg, mood as int),
        -0x1_0000_0000_0000_0000_0000_0000 <= r <= 0x1_0000_0000_0000_0000_0000_0000,
{
    let speed: i128 = cfg.reversion_speed as i128;
    let gap: i128 = cfg.mean as i128 - mood as i128;
    let dt: i128 = cfg.tick_interval_ms as i128;
    proof {
        lemma_product_bound(speed as int, gap as int, 0x8000_0000, 0x1_0000_0000);
        lemma_product_bound(
            speed * gap,
            dt as int,
            0x8000_0000_0000_0000,
            0x1_0000_0000,
        );
    }
    let raw: i128 = speed * gap * dt;
    proof {
        lemma_trunc_div_bound(raw as int, 1_000_000_000, 0x1_0000_0000_0000_0000_0000_0000);
    }
    div_toward_zero(raw, 1_000_000_000)
}

/// Computes the random shock of one tick for a standard-normal draw.
fn shock_of(cfg: &SentimentConfig, normal: i64) -> (r: i128)
    ensures
        r == diffusion(*cfg, normal as int),
        -0x4000_0000_0000_0000_0000_0000_0000_0000 <= r <= 0x4000_0000_0000_0000_0000_0000_0000_0000,
{
    let root: u64 = isqrt(cfg.tick_interval_ms as u64 * 1_000_000_000);
    let vol: i128 = cfg.volatility as i128;
    let draw: i128 = normal as i128;
    proof {
        lemma_product_bound(vol as int, draw as int, 0x8000_0000, 0x8000_0000_0000_0000);
        lemma_product_bound(
            vol * draw,
            root as int,
            0x4000_0000_0000_0000_0000_0000,
            0x1_0000_0000,
        );
    }
    let raw: i128 = vol * draw * (root as i128);
    proof {
        lemma_trunc_div_bound(
            raw as int,
            1_000_000_000_000,
            0x4000_0000_0000_0000_0000_0000_0000_0000,
        );
    }
    div_toward_zero(raw, 1_000_000_000_000)
}

} // verus!
