//! What holds of a service over any number of ticks.

use vstd::prelude::*;
use crate::service::{ServiceView, TickNoise, replay, tick_view};
use crate::units::SCALE;

verus! {

/// Two states agree on the market mood and on every sentiment.
pub open spec fn same_levels(a: ServiceView, b: ServiceView) -> bool {
    a.mood == b.mood && a.sentiments == b.sentiments
}

/// A tick changes neither the instruments nor the parameters, and takes a
/// valid state to a valid state, whatever the draws.
pub proof fn lemma_tick_keeps_valid(v: ServiceView, normal: int, uniforms: Seq<i64>)
    requires
        v.is_valid(),
    ensures
        tick_view(v, normal, uniforms).is_valid(),
        tick_view(v, normal, uniforms).stocks == v.stocks,
        tick_view(v, normal, uniforms).config == v.config,
{
    let t = tick_view(v, normal, uniforms);
    assert(t.ids() == v.ids());
    assert forall|id: u64| #[trigger] t.sentiments.contains_key(id) <==> t.ids().contains(id) by {}
}

/// Any number of ticks changes neither the instruments nor the
/// parameters, and takes a valid state to a valid state.
pub proof fn lemma_replay_keeps_valid(v: ServiceView, noise: Seq<TickNoise>)
    requires
        v.is_valid(),
    ensures
        replay(v, noise).is_valid(),
        replay(v, noise).stocks == v.stocks,
        replay(v, noise).config == v.config,
    decreases noise.len(),
{
    if noise.len() > 0 {
        lemma_replay_keeps_valid(v, noise.drop_last());
        lemma_tick_keeps_valid(
            replay(v, noise.drop_last()),
            noise.last().normal as int,
            noise.last().uniforms@,
        );
    }
}

/// After every tick, for every sequence of draws, the market mood lies
/// between -1.0 and 1.0.
pub proof fn lemma_mood_stays_in_range(v: ServiceView, noise: Seq<TickNoise>)
    requires
        v.is_valid(),
    ensures
        -SCALE <= replay(v, noise).mood <= SCALE,
{
    lemma_replay_keeps_valid(v, noise);
}

/// After every tick, for every sequence of draws, what a lookup of any id
/// yields lies between -1.0 and 1.0.
pub proof fn lemma_sentiment_stays_in_range(v: ServiceView, noise: Seq<TickNoise>, id: u64)
    requires
        v.is_valid(),
    ensures
        -SCALE <= replay(v, noise).sentiment(id) <= SCALE,
{
    lemma_replay_keeps_valid(v, noise);
    let r = replay(v, noise);
    if r.sentiments.contains_key(id) {
        assert(-SCALE <= r.sentiments[id] <= SCALE);
    }
}

/// A lookup of an id that is not tracked yields the neutral 0.0, however
/// many ticks have passed.
pub proof fn lemma_unknown_id_stays_neutral(v: ServiceView, noise: Seq<TickNoise>, id: u64)
    requires
        v.is_valid(),
        !v.ids().contains(id),
    ensures
        replay(v, noise).sentiment(id) == 0,
{
    lemma_replay_keeps_valid(v, noise);
    let r = replay(v, noise);
    assert(r.ids() == v.ids());
    assert(r.sentiments.contains_key(id) <==> r.ids().contains(id));
}

/// Two services with the same parameters and the same instrument ids that
/// start from the same levels and are fed the same draws hold the same
/// levels at the end.
proof fn lemma_replay_agrees(a: ServiceView, b: ServiceView, noise: Seq<TickNoise>)
    requires
        a.config == b.config,
        a.ids() == b.ids(),
        same_levels(a, b),
    ensures
        same_levels(replay(a, noise), replay(b, noise)),
        replay(a, noise).config == replay(b, noise).config,
        replay(a, noise).ids() == replay(b, noise).ids(),
    decreases noise.len(),
{
    if noise.len() > 0 {
        lemma_replay_agrees(a, b, noise.drop_last());
        let pa = replay(a, noise.drop_last());
        let pb = replay(b, noise.drop_last());
        let ta = tick_view(pa, noise.last().normal as int, noise.last().uniforms@);
        let tb = tick_view(pb, noise.last().normal as int, noise.last().uniforms@);
        assert(ta.ids() == pa.ids());
        assert(tb.ids() == pb.ids());
        assert(ta.sentiments =~= tb.sentiments);
    }
}

/// The feed is a function of its draws: two services with the same
/// parameters and the same instrument ids that start from the same levels
/// and are fed the same sequence of draws hold the same market mood and
/// the same sentiments after every tick.
pub proof fn lemma_replay_is_deterministic(a: ServiceView, b: ServiceView, noise: Seq<TickNoise>)
    requires
        a.config == b.config,
        a.ids() == b.ids(),
        same_levels(a, b),
    ensures
        forall|k: int|
            0 <= k <= noise.len() ==> same_levels(
                #[trigger] replay(a, noise.take(k)),
                replay(b, noise.take(k)),
            ),
{
    assert forall|k: int| 0 <= k <= noise.len() implies same_levels(
        #[trigger] replay(a, noise.take(k)),
        replay(b, noise.take(k)),
    ) by {
        lemma_replay_agrees(a, b, noise.take(k));
    }
}

} // verus!
