use wednesday::cache::{Asset, Cache, RateCheck};
use wednesday::trend::{bucket, check_rate, check_rate_step, provider_coin, provider_step, trend_tick};

#[test]
fn cold_start_seeds_without_alert() {
    let history: Vec<RateCheck> = Vec::new();
    let outcome = trend_tick(&history, 50_000_000_000, 1_000_000_000);
    assert_eq!(outcome.written, Some(RateCheck { rate: 50_000_000_000, grow: true }));
    assert_eq!(outcome.notify, None);
}

#[test]
fn same_bucket_is_noop() {
    let history = vec![RateCheck { rate: 50_000_000_000, grow: true }];
    // 50999 stays in bucket 50 for step 1000.
    let outcome = trend_tick(&history, 50_999_000_000, 1_000_000_000);
    assert_eq!(outcome.written, None);
    assert_eq!(outcome.notify, None);
}

#[test]
fn reference_trace_seed_noop_crossing() {
    // step = 1000; history empty; 50000 seeds, 50999 is a no-op,
    // 51200 crosses up but the history is still too short to notify.
    let step = 1_000_000_000;
    let mut cache = Cache::new();
    let a = Asset::BTC;

    assert_eq!(check_rate_step(&mut cache, a, 50_000_000_000, step), None);
    assert_eq!(
        cache.get_last_rate(a),
        vec![RateCheck { rate: 50_000_000_000, grow: true }]
    );

    assert_eq!(check_rate_step(&mut cache, a, 50_999_000_000, step), None);
    assert_eq!(
        cache.get_last_rate(a),
        vec![RateCheck { rate: 50_000_000_000, grow: true }]
    );

    assert_eq!(check_rate_step(&mut cache, a, 51_200_000_000, step), None);
    assert_eq!(
        cache.get_last_rate(a),
        vec![
            RateCheck { rate: 51_200_000_000, grow: true },
            RateCheck { rate: 50_000_000_000, grow: true },
        ]
    );
}

#[test]
fn second_confirming_crossing_alerts() {
    // Seed, then two upward crossings: the second one alerts.
    let step = 1_000_000_000;
    let mut cache = Cache::new();
    let a = Asset::BTC;

    assert_eq!(check_rate_step(&mut cache, a, 50_000_000_000, step), None);
    assert_eq!(check_rate_step(&mut cache, a, 51_200_000_000, step), None);
    let alert = check_rate_step(&mut cache, a, 52_500_000_000, step);
    assert_eq!(alert, Some(RateCheck { rate: 52_500_000_000, grow: true }));
    assert_eq!(cache.get_last_rate(a).len(), 3);
}

#[test]
fn direction_change_resets_debounce() {
    // A downward crossing against an upward head stays silent, even with
    // a full history.
    let step = 1_000_000_000;
    let history = vec![
        RateCheck { rate: 52_500_000_000, grow: true },
        RateCheck { rate: 51_200_000_000, grow: true },
        RateCheck { rate: 50_000_000_000, grow: true },
    ];
    let outcome = trend_tick(&history, 51_400_000_000, step);
    assert_eq!(
        outcome.written,
        Some(RateCheck { rate: 51_400_000_000, grow: false })
    );
    assert_eq!(outcome.notify, None);
}

#[test]
fn history_never_exceeds_cap() {
    let step = 1_000_000_000;
    let mut cache = Cache::new();
    let a = Asset::ETH;
    let mut rate = 10_000_000_000u64;
    for _ in 0..10 {
        rate += 2_000_000_000;
        check_rate_step(&mut cache, a, rate, step);
        assert!(cache.get_last_rate(a).len() <= 3);
    }
    // Only the three most recent crossings stay, newest first.
    let h = cache.get_last_rate(a);
    assert_eq!(h.len(), 3);
    assert!(h[0].rate > h[1].rate && h[1].rate > h[2].rate);
}

#[test]
fn bucket_is_integer_division() {
    assert_eq!(bucket(50_999_000_000, 1_000_000_000), 50);
    assert_eq!(bucket(51_000_000_000, 1_000_000_000), 51);
    assert_eq!(bucket(999, 1000), 0);
}

#[test]
fn provider_table_matches_assets() {
    assert_eq!(provider_coin(Asset::BTC), "BTC");
    assert_eq!(provider_step(Asset::BTC), 1_000_000_000);
    assert_eq!(provider_coin(Asset::ETH), "ETH");
    assert_eq!(provider_step(Asset::ETH), 100_000_000);
    assert_eq!(provider_step(Asset::ZEE), 10_000);
    assert_eq!(provider_step(Asset::BNB), 10_000_000);
    assert_eq!(provider_step(Asset::NOT), 1_000);
    assert_eq!(provider_step(Asset::TON), 100_000);
}

#[test]
fn check_rate_renders_alert() {
    let mut cache = Cache::new();
    let a = Asset::BTC;
    assert_eq!(check_rate(&mut cache, a, 50_000_000_000), None);
    assert_eq!(check_rate(&mut cache, a, 51_200_000_000), None);
    let alert = check_rate(&mut cache, a, 52_500_000_000);
    assert_eq!(alert, Some("BTC rate now is 52500$ \u{1F4C8}".to_owned()));
}
