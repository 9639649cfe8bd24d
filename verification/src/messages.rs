//! The texts the engine sends.
//!
//! Every message is built from verified decimal rendering
//! ([`crate::decimal`]); each builder's contract gives the exact
//! characters produced.

use vstd::prelude::*;

use crate::decimal::{push_dec_u64, push_pad_dec, spec_amount, spec_dec_of, spec_pad_dec};

verus! {

/// The rate, in micro-dollars, above which the digest turns cheerful.
pub const LAMBO_THRESHOLD: u64 = 100000000000;

/// A percentage in micro-percent, rounded half-up to two decimals:
/// the whole part, a dot, and exactly two fraction digits.
pub open spec fn spec_percent_2dp(micro: u64) -> Seq<char> {
    let c = (micro + 5000) as int / 10000;
    spec_dec_of(c / 100) + "."@ + spec_pad_dec(c % 100, 2)
}

/// A signed percentage rounded to two decimals.
pub open spec fn spec_signed_percent_2dp(micro: int) -> Seq<char> {
    if micro < 0 {
        "-"@ + spec_percent_2dp((-micro) as u64)
    } else {
        spec_percent_2dp(micro as u64)
    }
}

/// Append a percentage rounded to two decimals.
fn push_percent_2dp(micro: u64, out: &mut String)
    requires
        micro + 5000 <= u64::MAX,
    ensures
        final(out)@ == old(out)@ + spec_percent_2dp(micro),
{
    let c = (micro + 5000) / 10000;
    push_dec_u64(c / 100, out);
    out.append(".");
    push_pad_dec(c % 100, 2, out);
}

/// The trend alert: the asset symbol, the fresh rate, and an up or down
/// glyph.
pub open spec fn spec_trend_alert(coin: Seq<char>, rate: u64, grow: bool) -> Seq<char> {
    coin + " rate now is "@ + spec_amount(rate) + "$ "@ + (if grow {
        "\u{1F4C8}"@
    } else {
        "\u{1F4C9}"@
    })
}

/// Render the trend alert for one debounced signal.
pub fn trend_alert_text(coin: &str, rate: u64, grow: bool) -> (r: String)
    ensures
        r@ == spec_trend_alert(coin@, rate, grow),
{
    let mut out = coin.to_owned();
    out.append(" rate now is ");
    let amount = crate::decimal::format_amount(rate);
    out.append(amount.as_str());
    out.append("$ ");
    if grow {
        out.append("\u{1F4C8}");
    } else {
        out.append("\u{1F4C9}");
    }
    out
}

/// The twice-daily rate report, cheerful above the threshold.
pub open spec fn spec_lambo_text(rate: u64) -> Seq<char> {
    if rate > LAMBO_THRESHOLD {
        "Когда ламба? Сегодня! Курс BTC = "@ + spec_amount(rate) + "$"@
    } else {
        "Когда ламба? Не сегодня. Курс BTC = "@ + spec_amount(rate) + "$"@
    }
}

/// Render the twice-daily rate report.
pub fn lambo_text(rate: u64) -> (r: String)
    ensures
        r@ == spec_lambo_text(rate),
{
    let mut out = if rate > LAMBO_THRESHOLD {
        "Когда ламба? Сегодня! Курс BTC = ".to_owned()
    } else {
        "Когда ламба? Не сегодня. Курс BTC = ".to_owned()
    };
    let amount = crate::decimal::format_amount(rate);
    out.append(amount.as_str());
    out.append("$");
    out
}

/// The three-asset rate summary.
pub open spec fn spec_rates_text(btc: u64, eth: u64, bnb: u64) -> Seq<char> {
    "BTC = "@ + spec_amount(btc) + "$\nETH = "@ + spec_amount(eth) + "$\nBNB = "@ + spec_amount(
        bnb,
    ) + "$"@
}

/// Render the three-asset rate summary.
pub fn rates_text(btc: u64, eth: u64, bnb: u64) -> (r: String)
    ensures
        r@ == spec_rates_text(btc, eth, bnb),
{
    let mut out = "BTC = ".to_owned();
    let a = crate::decimal::format_amount(btc);
    out.append(a.as_str());
    out.append("$\nETH = ");
    let b = crate::decimal::format_amount(eth);
    out.append(b.as_str());
    out.append("$\nBNB = ");
    let c = crate::decimal::format_amount(bnb);
    out.append(c.as_str());
    out.append("$");
    out
}

/// The dominance report, both percentages to two decimals.
pub open spec fn spec_dominance_text(btc: u64, eth: u64) -> Seq<char> {
    "BTC dominance = "@ + spec_percent_2dp(btc) + "%\nETH dominance = "@ + spec_percent_2dp(eth)
        + "%"@
}

/// Render the dominance report from micro-percent values.
pub fn dominance_text(btc: u64, eth: u64) -> (r: String)
    requires
        btc + 5000 <= u64::MAX,
        eth + 5000 <= u64::MAX,
    ensures
        r@ == spec_dominance_text(btc, eth),
{
    let mut out = "BTC dominance = ".to_owned();
    push_percent_2dp(btc, &mut out);
    out.append("%\nETH dominance = ");
    push_percent_2dp(eth, &mut out);
    out.append("%");
    out
}

/// A single-asset rate answer.
pub open spec fn spec_coin_text(coin: Seq<char>, rate: u64) -> Seq<char> {
    "Курс "@ + coin + " = "@ + spec_amount(rate) + "$"@
}

/// Render a single-asset rate answer.
pub fn coin_text(coin: &str, rate: u64) -> (r: String)
    ensures
        r@ == spec_coin_text(coin@, rate),
{
    let mut out = "Курс ".to_owned();
    out.append(coin);
    out.append(" = ");
    let a = crate::decimal::format_amount(rate);
    out.append(a.as_str());
    out.append("$");
    out
}

/// A single-asset rate answer with its day's change in percent.
pub open spec fn spec_coin_change_text(coin: Seq<char>, rate: u64, change: int) -> Seq<char> {
    "Курс "@ + coin + " = "@ + spec_amount(rate) + "$ ("@ + spec_signed_percent_2dp(change)
        + "%)"@
}

/// Render a single-asset rate answer with its day's change.
pub fn coin_change_text(coin: &str, rate: u64, change: i64) -> (r: String)
    ensures
        r@ == spec_coin_change_text(coin@, rate, change as int),
{
    let mut out = "Курс ".to_owned();
    out.append(coin);
    out.append(" = ");
    let a = crate::decimal::format_amount(rate);
    out.append(a.as_str());
    out.append("$ (");
    if change < 0 {
        out.append("-");
        let mag: u64 = if change == i64::MIN {
            9223372036854775808u64
        } else {
            (-change) as u64
        };
        push_percent_2dp(mag, &mut out);
    } else {
        push_percent_2dp(change as u64, &mut out);
    }
    out.append("%)");
    out
}

/// The dollar-to-rouble answer, to two decimals.
pub open spec fn spec_usd_text(rate: u64) -> Seq<char> {
    "Курс USD = "@ + spec_percent_2dp(rate) + "₽"@
}

/// Render the dollar-to-rouble answer.
pub fn usd_text(rate: u64) -> (r: String)
    requires
        rate + 5000 <= u64::MAX,
    ensures
        r@ == spec_usd_text(rate),
{
    let mut out = "Курс USD = ".to_owned();
    push_percent_2dp(rate, &mut out);
    out.append("₽");
    out
}

/// The answer when a chat was subscribed to the digest.
pub fn added_text() -> (r: String)
    ensures
        r@ == "✅ Chat was added to list"@,
{
    "✅ Chat was added to list".to_owned()
}

/// The answer when a chat was already subscribed.
pub fn already_added_text() -> (r: String)
    ensures
        r@ == "⚠ Current chat is already in the list"@,
{
    "⚠ Current chat is already in the list".to_owned()
}

/// The answer when a chat was unsubscribed from the digest.
pub fn removed_text() -> (r: String)
    ensures
        r@ == "✅ Chat was removed from list"@,
{
    "✅ Chat was removed from list".to_owned()
}

/// The answer when a chat to unsubscribe was not subscribed.
pub fn not_in_list_text() -> (r: String)
    ensures
        r@ == "⚠ Current chat is not in the list"@,
{
    "⚠ Current chat is not in the list".to_owned()
}

/// The display name recorded for a user: the handle when there is one,
/// else the first name with the last name, else the first name with the
/// numeric id.
pub open spec fn spec_display_name(
    username: Option<Seq<char>>,
    first: Seq<char>,
    last: Option<Seq<char>>,
    user_id: u64,
) -> Seq<char> {
    match username {
        Some(u) => u,
        None => match last {
            Some(l) => first + " "@ + l,
            None => first + " "@ + spec_dec_of(user_id as int),
        },
    }
}

/// Pick the display name to record for a user.
pub fn display_name(username: Option<&str>, first: &str, last: Option<&str>, user_id: u64) -> (r:
    String)
    ensures
        r@ == spec_display_name(
            match username {
                Some(u) => Some(u@),
                None => None,
            },
            first@,
            match last {
                Some(l) => Some(l@),
                None => None,
            },
            user_id,
        ),
{
    match username {
        Some(u) => u.to_owned(),
        None => {
            let mut out = first.to_owned();
            out.append(" ");
            match last {
                Some(l) => {
                    out.append(l);
                },
                None => {
                    push_dec_u64(user_id, &mut out);
                },
            }
            out
        },
    }
}

/// The sticker id that gets its message deleted.
pub fn forbidden_sticker_id() -> (r: String)
    ensures
        r@ == "AgADvgADzHD_Ag"@,
{
    "AgADvgADzHD_Ag".to_owned()
}

/// Whether a sticker is the one that gets its message deleted.
pub fn is_forbidden_sticker(unique_id: &String) -> (r: bool)
    ensures
        r == (unique_id@ == "AgADvgADzHD_Ag"@),
{
    let forbidden = forbidden_sticker_id();
    *unique_id == forbidden
}

/// The reply to the forbidden sticker.
pub open spec fn spec_scold_text(username: Seq<char>) -> Seq<char> {
    "@"@ + username + ", хватит душить котов!"@
}

/// Render the reply to the forbidden sticker.
pub fn scold_text(username: &str) -> (r: String)
    ensures
        r@ == spec_scold_text(username@),
{
    let mut out = "@".to_owned();
    out.append(username);
    out.append(", хватит душить котов!");
    out
}

/// One line of the statistics answer.
pub open spec fn spec_stats_line(kind: crate::queries::UpdateKind, count: i64) -> Seq<char> {
    (match kind {
        crate::queries::UpdateKind::TextMessage => "Messages: "@,
        crate::queries::UpdateKind::Sticker => "Sticker: "@,
        crate::queries::UpdateKind::ForwardedMeme => "Memes: "@,
    }) + crate::decimal::spec_dec_of_signed(count as int) + "\n"@
}

/// The lines of the statistics answer, in row order.
pub open spec fn spec_stats_lines(rows: Seq<(crate::queries::UpdateKind, i64)>) -> Seq<char>
    decreases rows.len(),
{
    if rows.len() == 0 {
        Seq::empty()
    } else {
        spec_stats_lines(rows.drop_last()) + spec_stats_line(rows.last().0, rows.last().1)
    }
}

/// The whole statistics answer.
pub open spec fn spec_stats_text(rows: Seq<(crate::queries::UpdateKind, i64)>) -> Seq<char> {
    "Your statistics for today:\n"@ + spec_stats_lines(rows)
}

/// Render the statistics answer for a user's daily counters.
pub fn stats_text(rows: &Vec<(crate::queries::UpdateKind, i64)>) -> (r: String)
    ensures
        r@ == spec_stats_text(rows@),
{
    let mut out = "Your statistics for today:\n".to_owned();
    let ghost prefix = "Your statistics for today:\n"@;
    let mut i: usize = 0;
    proof {
        assert(rows@.take(0) =~= Seq::<(crate::queries::UpdateKind, i64)>::empty());
    }
    while i < rows.len()
        invariant
            i <= rows@.len(),
            out@ == prefix + spec_stats_lines(rows@.take(i as int)),
        decreases rows@.len() - i,
    {
        proof {
            assert(rows@.take(i as int + 1).drop_last() =~= rows@.take(i as int));
            assert(rows@.take(i as int + 1).last() == rows@[i as int]);
        }
        let (kind, count) = rows[i];
        match kind {
            crate::queries::UpdateKind::TextMessage => out.append("Messages: "),
            crate::queries::UpdateKind::Sticker => out.append("Sticker: "),
            crate::queries::UpdateKind::ForwardedMeme => out.append("Memes: "),
        }
        let num = crate::decimal::dec_i64(count);
        out.append(num.as_str());
        out.append("\n");
        i = i + 1;
    }
    proof {
        assert(rows@.take(rows@.len() as int) =~= rows@);
    }
    out
}

/// The answer when a chat was subscribed to rate alerts.
pub fn crypto_added_text() -> (r: String)
    ensures
        r@ == "✅ Chat was added to crypto list"@,
{
    "✅ Chat was added to crypto list".to_owned()
}

/// The answer when a chat was already subscribed to rate alerts.
pub fn crypto_already_added_text() -> (r: String)
    ensures
        r@ == "⚠ Current chat is already in the crypto list"@,
{
    "⚠ Current chat is already in the crypto list".to_owned()
}

/// The answer when a chat was unsubscribed from rate alerts.
pub fn crypto_removed_text() -> (r: String)
    ensures
        r@ == "✅ Chat was removed from crypto list"@,
{
    "✅ Chat was removed from crypto list".to_owned()
}

/// The answer when a chat to unsubscribe was not subscribed to rate
/// alerts.
pub fn crypto_not_in_list_text() -> (r: String)
    ensures
        r@ == "⚠ Current chat is not in the crypto list"@,
{
    "⚠ Current chat is not in the crypto list".to_owned()
}

/// The digest-subscription status answer.
pub open spec fn spec_status_text(active: bool) -> Seq<char> {
    if active {
        "Current chat is in the list ✅"@
    } else {
        "Current chat is not in the list ❌"@
    }
}

/// Render the digest-subscription status answer.
pub fn status_text(active: bool) -> (r: String)
    ensures
        r@ == spec_status_text(active),
{
    if active {
        "Current chat is in the list ✅".to_owned()
    } else {
        "Current chat is not in the list ❌".to_owned()
    }
}

/// The rate-alert-subscription status answer.
pub open spec fn spec_crypto_status_text(active: bool) -> Seq<char> {
    if active {
        "Current crypto chat is in the list ✅"@
    } else {
        "Current crypto chat is not in the list ❌"@
    }
}

/// Render the rate-alert-subscription status answer.
pub fn crypto_status_text(active: bool) -> (r: String)
    ensures
        r@ == spec_crypto_status_text(active),
{
    if active {
        "Current crypto chat is in the list ✅".to_owned()
    } else {
        "Current crypto chat is not in the list ❌".to_owned()
    }
}

} // verus!
