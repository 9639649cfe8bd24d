//! Per-asset rate trend detector.
//!
//! Every scheduled tick quantizes the freshly fetched rate into a bucket of
//! width `step` and compares it with the bucket of the newest stored
//! observation.  Only bucket crossings are recorded; an alert is raised
//! only when the history holds enough entries and the new crossing confirms
//! the direction of the previous one (the debounce gate).

use vstd::prelude::*;

use crate::cache::{pushed, Asset, Cache, RateCheck, HISTORY_CAP};

verus! {

/// Quantization bucket of a rate for a step width.
pub open spec fn spec_bucket(rate: u64, step: u64) -> int
    recommends
        step > 0,
{
    rate as int / step as int
}

/// Entries the history must already hold, before the push, for an alert to
/// be possible: one fewer than the cap, so that the pushed history reaches
/// the cap.
pub open spec fn gate_min_len() -> int {
    HISTORY_CAP - 1
}

pub fn bucket(rate: u64, step: u64) -> (b: u64)
    requires
        step > 0,
    ensures
        b == spec_bucket(rate, step),
{
    rate / step
}

/// The observation a tick writes, if any: a seed on an empty history, a
/// crossing observation when the bucket changed, nothing otherwise.
pub open spec fn tick_written(h: Seq<RateCheck>, current: u64, step: u64) -> Option<RateCheck> {
    if h.len() == 0 {
        Some(RateCheck { rate: current, grow: true })
    } else if spec_bucket(current, step) == spec_bucket(h[0].rate, step) {
        None
    } else {
        Some(
            RateCheck {
                rate: current,
                grow: spec_bucket(current, step) > spec_bucket(h[0].rate, step),
            },
        )
    }
}

/// The history after a tick.
pub open spec fn tick_history(h: Seq<RateCheck>, current: u64, step: u64) -> Seq<RateCheck> {
    match tick_written(h, current, step) {
        Some(obs) => pushed(h, obs),
        None => h,
    }
}

/// The debounced signal of a tick: the direction of the new crossing, when
/// the updated history reaches the cap and the crossing confirms the
/// direction of the head it replaces.  A seed never signals.
pub open spec fn tick_notify(h: Seq<RateCheck>, current: u64, step: u64) -> Option<bool> {
    if h.len() == 0 {
        None
    } else if spec_bucket(current, step) == spec_bucket(h[0].rate, step) {
        None
    } else {
        let grow = spec_bucket(current, step) > spec_bucket(h[0].rate, step);
        if h.len() >= gate_min_len() && grow == h[0].grow {
            Some(grow)
        } else {
            None
        }
    }
}

/// What one tick decided: the observation written, and the direction to
/// broadcast when the debounce condition held.
#[derive(Clone, Copy, PartialEq, Eq, Structural, Debug)]
pub struct TickOutcome {
    pub written: Option<RateCheck>,
    pub notify: Option<bool>,
}

/// Pure core of one detector tick, on an explicit history.
pub fn trend_tick(history: &Vec<RateCheck>, current: u64, step: u64) -> (r: TickOutcome)
    requires
        step > 0,
    ensures
        r.written == tick_written(history@, current, step),
        r.notify == tick_notify(history@, current, step),
{
    if history.len() == 0 {
        return TickOutcome { written: Some(RateCheck { rate: current, grow: true }), notify: None };
    }
    let prev_bucket = bucket(history[0].rate, step);
    let curr_bucket = bucket(current, step);
    if prev_bucket == curr_bucket {
        return TickOutcome { written: None, notify: None };
    }
    let grow = curr_bucket > prev_bucket;
    let written = Some(RateCheck { rate: current, grow });
    let gate = history.len() >= HISTORY_CAP - 1 && grow == history[0].grow;
    TickOutcome { written, notify: if gate { Some(grow) } else { None } }
}

/// One full detector pass for an asset: read the stored history, decide,
/// write back the new observation if the tick produced one, and hand the
/// alert observation to the caller when the debounce condition held.
pub fn check_rate_step(cache: &mut Cache, a: Asset, current: u64, step: u64) -> (alert: Option<
    RateCheck,
>)
    requires
        old(cache).wf(),
        step > 0,
    ensures
        final(cache).wf(),
        final(cache).history(a) =~= tick_history(old(cache).history(a), current, step),
        forall|b: Asset|
            crate::cache::spec_asset_index(b) != crate::cache::spec_asset_index(a)
                ==> #[trigger] final(cache).history(b) == old(cache).history(b),
        final(cache).spec_btc_dominance() == old(cache).spec_btc_dominance(),
        final(cache).spec_eth_dominance() == old(cache).spec_eth_dominance(),
        alert == match tick_notify(old(cache).history(a), current, step) {
            Some(grow) => Some(RateCheck { rate: current, grow }),
            None => None,
        },
{
    let history = cache.get_last_rate(a);
    let outcome = trend_tick(&history, current, step);
    match outcome.written {
        Some(obs) => {
            cache.add_last_rate(a, &obs);
        },
        None => {},
    }
    match outcome.notify {
        Some(grow) => Some(RateCheck { rate: current, grow }),
        None => None,
    }
}

/// The ticker symbol of an asset.
pub open spec fn spec_provider_coin(a: Asset) -> Seq<char> {
    match a {
        Asset::BTC => "BTC"@,
        Asset::ETH => "ETH"@,
        Asset::ZEE => "ZEE"@,
        Asset::BNB => "BNB"@,
        Asset::NOT => "NOT"@,
        Asset::TON => "TON"@,
    }
}

/// The quantization step of an asset, in micro-dollars: the price move
/// counted as significant.
pub open spec fn spec_provider_step(a: Asset) -> u64 {
    match a {
        Asset::BTC => 1000000000u64,
        Asset::ETH => 100000000u64,
        Asset::ZEE => 10000u64,
        Asset::BNB => 10000000u64,
        Asset::NOT => 1000u64,
        Asset::TON => 100000u64,
    }
}

/// The ticker symbol of an asset.
pub fn provider_coin(a: Asset) -> (r: &'static str)
    ensures
        r@ == spec_provider_coin(a),
{
    match a {
        Asset::BTC => "BTC",
        Asset::ETH => "ETH",
        Asset::ZEE => "ZEE",
        Asset::BNB => "BNB",
        Asset::NOT => "NOT",
        Asset::TON => "TON",
    }
}

/// The quantization step of an asset, in micro-dollars.
pub fn provider_step(a: Asset) -> (r: u64)
    ensures
        r == spec_provider_step(a),
        r > 0,
{
    match a {
        Asset::BTC => 1000000000,
        Asset::ETH => 100000000,
        Asset::ZEE => 10000,
        Asset::BNB => 10000000,
        Asset::NOT => 1000,
        Asset::TON => 100000,
    }
}

/// One whole detector pass for an asset with its configured step: decide
/// against the stored history, update it, and render the alert when the
/// debounce condition held.
pub fn check_rate(cache: &mut Cache, a: Asset, current: u64) -> (alert: Option<String>)
    requires
        old(cache).wf(),
    ensures
        final(cache).wf(),
        final(cache).history(a) =~= tick_history(
            old(cache).history(a),
            current,
            spec_provider_step(a),
        ),
        forall|b: Asset|
            crate::cache::spec_asset_index(b) != crate::cache::spec_asset_index(a)
                ==> #[trigger] final(cache).history(b) == old(cache).history(b),
        alert is Some <==> tick_notify(old(cache).history(a), current, spec_provider_step(a))
            is Some,
        alert is Some ==> alert->0@ == crate::messages::spec_trend_alert(
            spec_provider_coin(a),
            current,
            tick_notify(old(cache).history(a), current, spec_provider_step(a))->0,
        ),
{
    let step = provider_step(a);
    match check_rate_step(cache, a, current, step) {
        Some(obs) => Some(
            crate::messages::trend_alert_text(provider_coin(a), obs.rate, obs.grow),
        ),
        None => None,
    }
}

/// The history after a whole sequence of ticks.
pub open spec fn run_history(h: Seq<RateCheck>, prices: Seq<u64>, step: u64) -> Seq<RateCheck>
    decreases prices.len(),
{
    if prices.len() == 0 {
        h
    } else {
        run_history(tick_history(h, prices[0], step), prices.skip(1), step)
    }
}

/// No tick of the sequence raises a signal.
pub open spec fn run_never_notifies(h: Seq<RateCheck>, prices: Seq<u64>, step: u64) -> bool
    decreases prices.len(),
{
    prices.len() == 0 || (tick_notify(h, prices[0], step) is None && run_never_notifies(
        tick_history(h, prices[0], step),
        prices.skip(1),
        step,
    ))
}

/// Cold-start law: a tick on an empty history never signals; it only seeds
/// the history with the current rate, marked as growth.
pub proof fn lemma_cold_start_never_notifies(current: u64, step: u64)
    requires
        step > 0,
    ensures
        tick_notify(Seq::<RateCheck>::empty(), current, step) is None,
        tick_history(Seq::<RateCheck>::empty(), current, step) =~= seq![
            RateCheck { rate: current, grow: true },
        ],
{
}

/// Noise law: as long as every sampled rate stays in the bucket of the
/// stored head, no tick writes to the history and no tick signals.
pub proof fn lemma_same_bucket_run_is_noop(h: Seq<RateCheck>, prices: Seq<u64>, step: u64)
    requires
        step > 0,
        h.len() > 0,
        forall|i: int|
            0 <= i < prices.len() ==> spec_bucket(#[trigger] prices[i], step) == spec_bucket(
                h[0].rate,
                step,
            ),
    ensures
        run_history(h, prices, step) == h,
        run_never_notifies(h, prices, step),
    decreases prices.len(),
{
    if prices.len() > 0 {
        assert(tick_history(h, prices[0], step) == h);
        assert(forall|i: int|
            0 <= i < prices.skip(1).len() ==> spec_bucket(#[trigger] prices.skip(1)[i], step)
                == spec_bucket(h[0].rate, step));
        lemma_same_bucket_run_is_noop(h, prices.skip(1), step);
    }
}

/// Debounce law: after a cold start, the second of two consecutive
/// same-direction bucket crossings — and neither earlier tick — raises the
/// signal, and the signalled direction is that shared direction.
pub proof fn lemma_second_confirming_crossing_notifies(p0: u64, p1: u64, p2: u64, step: u64)
    requires
        step > 0,
        spec_bucket(p1, step) != spec_bucket(p0, step),
        spec_bucket(p2, step) != spec_bucket(p1, step),
        (spec_bucket(p2, step) > spec_bucket(p1, step)) == (spec_bucket(p1, step) > spec_bucket(
            p0,
            step,
        )),
    ensures
        tick_notify(Seq::<RateCheck>::empty(), p0, step) is None,
        tick_notify(tick_history(Seq::<RateCheck>::empty(), p0, step), p1, step) is None,
        tick_notify(
            tick_history(tick_history(Seq::<RateCheck>::empty(), p0, step), p1, step),
            p2,
            step,
        ) == Some(spec_bucket(p1, step) > spec_bucket(p0, step)),
{
    let h0 = Seq::<RateCheck>::empty();
    let h1 = tick_history(h0, p0, step);
    assert(h1 =~= seq![RateCheck { rate: p0, grow: true }]);
    let h2 = tick_history(h1, p1, step);
    let d = spec_bucket(p1, step) > spec_bucket(p0, step);
    assert(h2 =~= seq![RateCheck { rate: p1, grow: d }, RateCheck { rate: p0, grow: true }]);
}

/// Reset law: a crossing whose direction contradicts the stored head never
/// signals, however long the history already is.
pub proof fn lemma_direction_change_suppresses(h: Seq<RateCheck>, current: u64, step: u64)
    requires
        step > 0,
        h.len() > 0,
        spec_bucket(current, step) != spec_bucket(h[0].rate, step),
        (spec_bucket(current, step) > spec_bucket(h[0].rate, step)) != h[0].grow,
    ensures
        tick_notify(h, current, step) is None,
{
}

/// Run-level capacity law: however many ticks run, a history within the
/// cap stays within the cap.
pub proof fn lemma_run_history_bounded(h: Seq<RateCheck>, prices: Seq<u64>, step: u64)
    requires
        h.len() <= HISTORY_CAP,
    ensures
        run_history(h, prices, step).len() <= HISTORY_CAP,
    decreases prices.len(),
{
    if prices.len() > 0 {
        lemma_run_history_bounded(tick_history(h, prices[0], step), prices.skip(1), step);
    }
}

/// Capacity law: a push keeps every entry while the history is short of the
/// cap, and drops exactly the oldest entry once the cap is reached; the
/// result never exceeds the cap.
pub proof fn lemma_push_truncates(h: Seq<RateCheck>, obs: RateCheck)
    requires
        h.len() <= HISTORY_CAP,
    ensures
        pushed(h, obs).len() <= HISTORY_CAP,
        h.len() < HISTORY_CAP ==> pushed(h, obs) == seq![obs] + h,
        h.len() == HISTORY_CAP ==> pushed(h, obs) =~= (seq![obs] + h).take(HISTORY_CAP as int),
{
}

} // verus!
