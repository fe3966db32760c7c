//! How one instrument's sentiment follows from the market mood.

use vstd::prelude::*;
use crate::config::SentimentConfig;
use crate::units::{
    SCALE, clamp_unit, clamp_to_unit, div_toward_zero, lemma_product_bound, lemma_trunc_div_bound,
    trunc_div,
};

verus! {

/// The noise of one instrument for a uniform draw `uniform` from -1.0 to
/// 1.0, `volatility * 0.1 * uniform`, rounded toward zero to a whole
/// number of millionths.
pub open spec fn idiosyncratic(cfg: SentimentConfig, uniform: int) -> int {
    trunc_div(cfg.volatility * uniform, 10_000_000)
}

/// The sentiment of one instrument: the market mood, its own noise and the
/// baseline shift, limited to the interval from -1.0 to 1.0.
pub open spec fn derived_sentiment(cfg: SentimentConfig, mood: int, uniform: int) -> int {
    clamp_unit(mood + idiosyncratic(cfg, uniform) + cfg.offset)
}

/// Whatever the parameters, the mood and the draw, a derived sentiment
/// lies between -1.0 and 1.0.
pub proof fn lemma_derived_sentiment_in_range(cfg: SentimentConfig, mood: int, uniform: int)
    ensures
        -SCALE <= derived_sentiment(cfg, mood, uniform) <= SCALE,
{
}

/// Computes the sentiment of one instrument from the market mood and a
/// uniform draw.
pub fn derive_sentiment(cfg: &SentimentConfig, mood: i64, uniform: i64) -> (r: i64)
    ensures
        r == derived_sentiment(*cfg, mood as int, uniform as int),
        -SCALE <= r <= SCALE,
{
    let vol: i128 = cfg.volatility as i128;
    let draw: i128 = uniform as i128;
    proof {
        lemma_product_bound(vol as int, draw as int, 0x8000_0000, 0x8000_0000_0000_0000);
        lemma_trunc_div_bound(vol * draw, 10_000_000, 0x4000_0000_0000_0000_0000_0000);
    }
    let noise: i128 = div_toward_zero(vol * draw, 10_000_000);
    clamp_to_unit(mood as i128 + noise + cfg.offset as i128)
}

} // verus!
