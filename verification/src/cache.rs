//! Rolling per-asset history of trend observations and TTL-bound scalar
//! values (dominance percentages).
//!
//! The history of each asset is a newest-first list of at most
//! [`HISTORY_CAP`] entries; pushing prepends and truncates the oldest.
//! Scalar values carry an absolute expiry time and are only returned while
//! that time has not passed.

use vstd::prelude::*;

verus! {

/// Upper bound on the number of stored observations per asset.
pub const HISTORY_CAP: usize = 3;

/// Seconds a stored scalar value stays valid.
pub const SCALAR_TTL_SECS: u64 = 1200;

/// One debounced trend decision: the sampled rate in micro-units and the
/// direction of the bucket crossing that produced it.
#[derive(Clone, Copy, PartialEq, Eq, Structural, Debug)]
pub struct RateCheck {
    pub rate: u64,
    pub grow: bool,
}

/// The tradable assets the engine tracks.
#[derive(Clone, Copy, PartialEq, Eq, Structural, Debug)]
pub enum Asset {
    BTC,
    ETH,
    ZEE,
    BNB,
    NOT,
    TON,
}

/// Index of an asset into the per-asset tables.
pub open spec fn spec_asset_index(a: Asset) -> int {
    match a {
        Asset::BTC => 0,
        Asset::ETH => 1,
        Asset::ZEE => 2,
        Asset::BNB => 3,
        Asset::NOT => 4,
        Asset::TON => 5,
    }
}

/// Number of tracked assets.
pub const ASSET_COUNT: usize = 6;

pub fn asset_index(a: Asset) -> (i: usize)
    ensures
        i == spec_asset_index(a),
        i < ASSET_COUNT,
{
    match a {
        Asset::BTC => 0,
        Asset::ETH => 1,
        Asset::ZEE => 2,
        Asset::BNB => 3,
        Asset::NOT => 4,
        Asset::TON => 5,
    }
}

/// What a history looks like after one push: the new observation in front,
/// then the old entries, truncated to the cap.
pub open spec fn pushed(h: Seq<RateCheck>, obs: RateCheck) -> Seq<RateCheck> {
    let all = seq![obs] + h;
    if all.len() <= HISTORY_CAP {
        all
    } else {
        all.take(HISTORY_CAP as int)
    }
}

/// A TTL-bound scalar slot: value in micro-units and absolute expiry time
/// in seconds.
#[derive(Clone, Copy, PartialEq, Eq, Structural, Debug)]
pub struct ScalarEntry {
    pub value: u64,
    pub expires_at: u64,
}

/// In-memory cache store: one rolling history per asset, plus the two
/// dominance scalars.
pub struct Cache {
    histories: Vec<Vec<RateCheck>>,
    btc_dominance: Option<ScalarEntry>,
    eth_dominance: Option<ScalarEntry>,
}

impl Cache {
    /// The histories table always has one bounded list per asset.
    pub closed spec fn wf(self) -> bool {
        &&& self.histories@.len() == ASSET_COUNT
        &&& forall|i: int|
            0 <= i < ASSET_COUNT ==> (#[trigger] self.histories@[i])@.len() <= HISTORY_CAP
    }

    /// The stored history of one asset, newest first.
    pub closed spec fn history(self, a: Asset) -> Seq<RateCheck> {
        self.histories@[spec_asset_index(a)]@
    }

    pub closed spec fn spec_btc_dominance(self) -> Option<ScalarEntry> {
        self.btc_dominance
    }

    pub closed spec fn spec_eth_dominance(self) -> Option<ScalarEntry> {
        self.eth_dominance
    }

    /// A fresh cache: every history empty, no scalars.
    pub fn new() -> (c: Cache)
        ensures
            c.wf(),
            forall|a: Asset| #[trigger] c.history(a) =~= Seq::<RateCheck>::empty(),
            c.spec_btc_dominance() is None,
            c.spec_eth_dominance() is None,
    {
        let mut histories: Vec<Vec<RateCheck>> = Vec::new();
        let mut i: usize = 0;
        while i < ASSET_COUNT
            invariant
                i <= ASSET_COUNT,
                histories@.len() == i,
                forall|j: int| 0 <= j < i ==> (#[trigger] histories@[j])@.len() == 0,
            decreases ASSET_COUNT - i,
        {
            histories.push(Vec::new());
            i = i + 1;
        }
        Cache { histories, btc_dominance: None, eth_dominance: None }
    }

    /// Read one asset's history, newest first.
    pub fn get_last_rate(&self, a: Asset) -> (r: Vec<RateCheck>)
        requires
            self.wf(),
        ensures
            r@ =~= self.history(a),
    {
        let i = asset_index(a);
        let src = &self.histories[i];
        let mut out: Vec<RateCheck> = Vec::new();
        let mut k: usize = 0;
        while k < src.len()
            invariant
                k <= src@.len(),
                out@.len() == k,
                forall|j: int| 0 <= j < k ==> out@[j] == src@[j],
            decreases src@.len() - k,
        {
            out.push(src[k]);
            k = k + 1;
        }
        out
    }

    /// Prepend one observation to an asset's history and drop everything
    /// past the cap.
    pub fn add_last_rate(&mut self, a: Asset, value: &RateCheck)
        requires
            old(self).wf(),
        ensures
            final(self).wf(),
            final(self).history(a) =~= pushed(old(self).history(a), *value),
            forall|b: Asset|
                spec_asset_index(b) != spec_asset_index(a) ==> #[trigger] final(self).history(b)
                    == old(self).history(b),
            final(self).spec_btc_dominance() == old(self).spec_btc_dominance(),
            final(self).spec_eth_dominance() == old(self).spec_eth_dominance(),
    {
        let i = asset_index(a);
        let old_h = &self.histories[i];
        let mut new_h: Vec<RateCheck> = Vec::new();
        new_h.push(*value);
        if old_h.len() >= 1 {
            new_h.push(old_h[0]);
        }
        if old_h.len() >= 2 {
            new_h.push(old_h[1]);
        }
        proof {
            assert(new_h@ =~= pushed(old(self).history(a), *value));
        }
        self.histories.set(i, new_h);
    }

    /// Read the BTC history.
    pub fn get_last_btc_rate(&self) -> (r: Vec<RateCheck>)
        requires
            self.wf(),
        ensures
            r@ =~= self.history(Asset::BTC),
    {
        self.get_last_rate(Asset::BTC)
    }

    /// Push one BTC observation.
    pub fn add_last_btc_rate(&mut self, value: &RateCheck)
        requires
            old(self).wf(),
        ensures
            final(self).wf(),
            final(self).history(Asset::BTC) =~= pushed(old(self).history(Asset::BTC), *value),
    {
        self.add_last_rate(Asset::BTC, value);
    }

    /// Read the ETH history.
    pub fn get_last_eth_rate(&self) -> (r: Vec<RateCheck>)
        requires
            self.wf(),
        ensures
            r@ =~= self.history(Asset::ETH),
    {
        self.get_last_rate(Asset::ETH)
    }

    /// Push one ETH observation.
    pub fn add_last_eth_rate(&mut self, value: &RateCheck)
        requires
            old(self).wf(),
        ensures
            final(self).wf(),
            final(self).history(Asset::ETH) =~= pushed(old(self).history(Asset::ETH), *value),
    {
        self.add_last_rate(Asset::ETH, value);
    }

    /// Read the ZEE history.
    pub fn get_last_zee_rate(&self) -> (r: Vec<RateCheck>)
        requires
            self.wf(),
        ensures
            r@ =~= self.history(Asset::ZEE),
    {
        self.get_last_rate(Asset::ZEE)
    }

    /// Push one ZEE observation.
    pub fn add_last_zee_rate(&mut self, value: &RateCheck)
        requires
            old(self).wf(),
        ensures
            final(self).wf(),
            final(self).history(Asset::ZEE) =~= pushed(old(self).history(Asset::ZEE), *value),
    {
        self.add_last_rate(Asset::ZEE, value);
    }

    /// Read the BNB history.
    pub fn get_last_bnb_rate(&self) -> (r: Vec<RateCheck>)
        requires
            self.wf(),
        ensures
            r@ =~= self.history(Asset::BNB),
    {
        self.get_last_rate(Asset::BNB)
    }

    /// Push one BNB observation.
    pub fn add_last_bnb_rate(&mut self, value: &RateCheck)
        requires
            old(self).wf(),
        ensures
            final(self).wf(),
            final(self).history(Asset::BNB) =~= pushed(old(self).history(Asset::BNB), *value),
    {
        self.add_last_rate(Asset::BNB, value);
    }

    /// The cached BTC dominance, while it has not expired.
    pub fn get_btc_dominance(&self, now_secs: u64) -> (r: Option<u64>)
        ensures
            r == scalar_read(self.spec_btc_dominance(), now_secs),
    {
        match self.btc_dominance {
            Some(e) if now_secs < e.expires_at => Some(e.value),
            _ => None,
        }
    }

    /// The cached ETH dominance, while it has not expired.
    pub fn get_eth_dominance(&self, now_secs: u64) -> (r: Option<u64>)
        ensures
            r == scalar_read(self.spec_eth_dominance(), now_secs),
    {
        match self.eth_dominance {
            Some(e) if now_secs < e.expires_at => Some(e.value),
            _ => None,
        }
    }

    /// Store the BTC dominance with the fixed TTL.
    pub fn set_btc_dominance(&mut self, value: u64, now_secs: u64)
        requires
            now_secs + SCALAR_TTL_SECS <= u64::MAX,
        ensures
            final(self).spec_btc_dominance() == Some(
                ScalarEntry { value, expires_at: (now_secs + SCALAR_TTL_SECS) as u64 },
            ),
            final(self).spec_eth_dominance() == old(self).spec_eth_dominance(),
            forall|b: Asset| #[trigger] final(self).history(b) == old(self).history(b),
            final(self).wf() == old(self).wf(),
    {
        self.btc_dominance = Some(ScalarEntry { value, expires_at: now_secs + SCALAR_TTL_SECS });
    }

    /// Store the ETH dominance with the fixed TTL.
    pub fn set_eth_dominance(&mut self, value: u64, now_secs: u64)
        requires
            now_secs + SCALAR_TTL_SECS <= u64::MAX,
        ensures
            final(self).spec_eth_dominance() == Some(
                ScalarEntry { value, expires_at: (now_secs + SCALAR_TTL_SECS) as u64 },
            ),
            final(self).spec_btc_dominance() == old(self).spec_btc_dominance(),
            forall|b: Asset| #[trigger] final(self).history(b) == old(self).history(b),
            final(self).wf() == old(self).wf(),
    {
        self.eth_dominance = Some(ScalarEntry { value, expires_at: now_secs + SCALAR_TTL_SECS });
    }
}

/// What a read of a TTL slot returns at a given time: the value while the
/// entry exists and has not expired, nothing otherwise.
pub open spec fn scalar_read(slot: Option<ScalarEntry>, now_secs: u64) -> Option<u64> {
    match slot {
        Some(e) => if now_secs < e.expires_at {
            Some(e.value)
        } else {
            None
        },
        None => None,
    }
}

} // verus!
