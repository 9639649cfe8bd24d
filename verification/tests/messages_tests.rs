use wednesday::messages::{
    added_text, already_added_text, coin_change_text, coin_text, crypto_added_text,
    crypto_already_added_text, crypto_not_in_list_text, crypto_removed_text, crypto_status_text,
    display_name, dominance_text, is_forbidden_sticker, lambo_text, not_in_list_text, rates_text,
    removed_text, scold_text, stats_text, status_text, trend_alert_text, usd_text,
    LAMBO_THRESHOLD,
};
use wednesday::queries::UpdateKind;

#[test]
fn trend_alert_glyphs() {
    assert_eq!(
        trend_alert_text("BTC", 50_123_450_000, true),
        "BTC rate now is 50123.45$ \u{1F4C8}"
    );
    assert_eq!(
        trend_alert_text("ETH", 2_000_000_000, false),
        "ETH rate now is 2000$ \u{1F4C9}"
    );
}

#[test]
fn lambo_threshold_switches_mood() {
    assert_eq!(LAMBO_THRESHOLD, 100_000_000_000);
    assert_eq!(
        lambo_text(100_000_000_001),
        "Когда ламба? Сегодня! Курс BTC = 100000.000001$"
    );
    assert_eq!(
        lambo_text(50_000_000_000),
        "Когда ламба? Не сегодня. Курс BTC = 50000$"
    );
}

#[test]
fn rates_summary_lists_three_assets() {
    assert_eq!(
        rates_text(50_000_000_000, 2_000_000_000, 610_500_000),
        "BTC = 50000$\nETH = 2000$\nBNB = 610.5$"
    );
}

#[test]
fn dominance_rounds_to_two_decimals() {
    assert_eq!(
        dominance_text(54_326_000, 17_014_999),
        "BTC dominance = 54.33%\nETH dominance = 17.01%"
    );
    assert_eq!(
        dominance_text(50_000_000, 0),
        "BTC dominance = 50.00%\nETH dominance = 0.00%"
    );
}

#[test]
fn coin_answers() {
    assert_eq!(coin_text("LTC", 85_250_000), "Курс LTC = 85.25$");
    assert_eq!(
        coin_change_text("SOL", 150_000_000, -2_345_000),
        "Курс SOL = 150$ (-2.35%)"
    );
    assert_eq!(
        coin_change_text("ZEE", 12_000, 1_204_999),
        "Курс ZEE = 0.012$ (1.20%)"
    );
}

#[test]
fn usd_answer() {
    assert_eq!(usd_text(90_499_000), "Курс USD = 90.50₽");
}

#[test]
fn subscription_answers() {
    assert_eq!(added_text(), "✅ Chat was added to list");
    assert_eq!(already_added_text(), "⚠ Current chat is already in the list");
    assert_eq!(removed_text(), "✅ Chat was removed from list");
    assert_eq!(not_in_list_text(), "⚠ Current chat is not in the list");
    assert_eq!(status_text(true), "Current chat is in the list ✅");
    assert_eq!(status_text(false), "Current chat is not in the list ❌");
    assert_eq!(crypto_status_text(true), "Current crypto chat is in the list ✅");
    assert_eq!(
        crypto_status_text(false),
        "Current crypto chat is not in the list ❌"
    );
}

#[test]
fn crypto_subscription_answers() {
    assert_eq!(crypto_added_text(), "✅ Chat was added to crypto list");
    assert_eq!(
        crypto_already_added_text(),
        "⚠ Current chat is already in the crypto list"
    );
    assert_eq!(crypto_removed_text(), "✅ Chat was removed from crypto list");
    assert_eq!(
        crypto_not_in_list_text(),
        "⚠ Current chat is not in the crypto list"
    );
}

#[test]
fn display_name_prefers_handle() {
    assert_eq!(display_name(Some("durov"), "Pavel", None, 1), "durov");
    assert_eq!(
        display_name(None, "Pavel", Some("Durov"), 1),
        "Pavel Durov"
    );
    assert_eq!(display_name(None, "Pavel", None, 203), "Pavel 203");
}

#[test]
fn forbidden_sticker_is_recognised() {
    assert!(is_forbidden_sticker(&"AgADvgADzHD_Ag".to_owned()));
    assert!(!is_forbidden_sticker(&"AgADvgADzHD_Ah".to_owned()));
    assert_eq!(scold_text("durov"), "@durov, хватит душить котов!");
}

#[test]
fn stats_answer_lists_counters() {
    let rows = vec![
        (UpdateKind::TextMessage, 12i64),
        (UpdateKind::Sticker, 3),
        (UpdateKind::ForwardedMeme, 1),
    ];
    assert_eq!(
        stats_text(&rows),
        "Your statistics for today:\nMessages: 12\nSticker: 3\nMemes: 1\n"
    );
    assert_eq!(stats_text(&Vec::new()), "Your statistics for today:\n");
}
