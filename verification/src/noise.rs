//! Random draws for the per-instrument noise.

use rand::Rng;
use vstd::prelude::*;
use crate::units::SCALE;

verus! {

/// One draw from `low..high`, made by `rand::Rng::gen_range` on the
/// generator that `rand::thread_rng` hands out. Taken on trust from the
/// `rand` crate: the draw is at least `low` and below `high`. Nothing is
/// said about which number comes; two calls may differ.
#[verifier::external_body]
fn draw_in_range(low: i64, high: i64) -> (r: i64)
    requires
        low < high,
    ensures
        low <= r < high,
{
    rand::thread_rng().gen_range(low..high)
}

/// One draw from the uniform distribution on -1.0 up to, but not
/// including, 1.0.
pub fn uniform_draw() -> (r: i64)
    ensures
        -SCALE <= r < SCALE,
{
    draw_in_range(-SCALE, SCALE)
}

/// `count` independent draws, each from -1.0 up to, but not including, 1.0.
pub fn uniform_draws(count: usize) -> (draws: Vec<i64>)
    ensures
        draws.len() == count,
        forall|i: int| 0 <= i < count ==> -SCALE <= #[trigger] draws@[i] < SCALE,
{
    let mut draws: Vec<i64> = Vec::new();
    let mut i: usize = 0;
    while i < count
        invariant
            i <= count,
            draws.len() == i,
            forall|k: int| 0 <= k < i ==> -SCALE <= #[trigger] draws@[k] < SCALE,
        decreases count - i,
    {
        let draw: i64 = uniform_draw();
        draws.push(draw);
        i += 1;
    }
    draws
}

} // verus!
