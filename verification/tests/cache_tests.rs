use wednesday::cache::{Asset, Cache, RateCheck, SCALAR_TTL_SECS};

#[test]
fn history_push_prepends_and_truncates() {
    let mut c = Cache::new();
    let a = Asset::ZEE;
    for k in 1..=5u64 {
        c.add_last_rate(a, &RateCheck { rate: k * 1000, grow: k % 2 == 0 });
    }
    let h = c.get_last_rate(a);
    assert_eq!(
        h,
        vec![
            RateCheck { rate: 5000, grow: false },
            RateCheck { rate: 4000, grow: true },
            RateCheck { rate: 3000, grow: false },
        ]
    );
}

#[test]
fn histories_are_per_asset() {
    let mut c = Cache::new();
    c.add_last_rate(Asset::BTC, &RateCheck { rate: 1, grow: true });
    assert_eq!(c.get_last_rate(Asset::ETH), Vec::new());
    assert_eq!(c.get_last_rate(Asset::BTC).len(), 1);
}

#[test]
fn scalars_expire_after_ttl() {
    let mut c = Cache::new();
    let now = 1_000_000;
    assert_eq!(c.get_btc_dominance(now), None);
    c.set_btc_dominance(54_320_000, now);
    assert_eq!(c.get_btc_dominance(now), Some(54_320_000));
    assert_eq!(c.get_btc_dominance(now + SCALAR_TTL_SECS - 1), Some(54_320_000));
    assert_eq!(c.get_btc_dominance(now + SCALAR_TTL_SECS), None);
    // The other slot is untouched.
    assert_eq!(c.get_eth_dominance(now), None);
    c.set_eth_dominance(17_010_000, now);
    assert_eq!(c.get_eth_dominance(now), Some(17_010_000));
}

#[test]
fn per_coin_accessors_delegate() {
    let mut c = Cache::new();
    c.add_last_btc_rate(&RateCheck { rate: 10, grow: true });
    c.add_last_eth_rate(&RateCheck { rate: 20, grow: false });
    c.add_last_zee_rate(&RateCheck { rate: 30, grow: true });
    c.add_last_bnb_rate(&RateCheck { rate: 40, grow: false });
    assert_eq!(c.get_last_btc_rate(), vec![RateCheck { rate: 10, grow: true }]);
    assert_eq!(c.get_last_eth_rate(), vec![RateCheck { rate: 20, grow: false }]);
    assert_eq!(c.get_last_zee_rate(), vec![RateCheck { rate: 30, grow: true }]);
    assert_eq!(c.get_last_bnb_rate(), vec![RateCheck { rate: 40, grow: false }]);
}
