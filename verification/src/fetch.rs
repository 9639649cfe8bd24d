//! Validation of upstream price responses.
//!
//! Every price provider answers with a JSON body.  The body must have the
//! expected shape — an object, the expected member, a string or number
//! there — and the numeral must parse; anything else is a terminal error,
//! kept apart from connection failures, which are transient and feed the
//! retry wrapper.  An upstream error payload is surfaced with its code
//! and message.
//!
//! The JSON reading itself is `serde_json`'s work.  What each body
//! yields is a function of its text alone, so the extraction results are
//! given names ([`object_string_of`], [`number_text_of`],
//! [`nested_number_text_of`], [`upstream_error_of`], with a defect
//! sibling each); the trusted wrappers tie the names to `serde_json`'s
//! answers, and every validator's contract then says if and only if when
//! it succeeds, what value it returns, and which error each defect
//! draws.  The numeral step carries its own exact contract
//! ([`crate::decimal::parse_decimal_micro`]).

use vstd::prelude::*;

use crate::decimal::{
    parse_decimal_micro, parse_signed_decimal_micro, spec_micro_val, spec_signed_micro_val,
    wf_numeral, wf_signed_numeral,
};

verus! {

/// Why a fetched response was rejected, or that the fetch itself failed.
#[derive(Clone, PartialEq, Eq, Debug)]
pub enum FetchError {
    /// Connection-level failure: worth retrying.
    Network,
    /// The body is not JSON.
    InvalidJson,
    /// The body is JSON but not an object of the expected shape.
    UnexpectedFormat,
    /// The named field is absent.
    MissingField(String),
    /// The named field is present but no usable finite numeral.
    NotANumber(String),
    /// The upstream answered with its own error payload.
    Upstream { code: u64, message: String },
}

impl FetchError {
    /// Only connection-level failures are worth retrying; every
    /// data-shape failure is terminal.
    pub fn is_transient(&self) -> (r: bool)
        ensures
            r == (*self is Network),
    {
        match self {
            FetchError::Network => true,
            _ => false,
        }
    }
}

/// Whether a numeral text denotes a micro-unit value that fits.
pub open spec fn spec_micro_ok(text: Seq<char>) -> bool {
    wf_numeral(text) && spec_micro_val(text) <= u64::MAX
}

/// Whether a signed numeral text denotes a signed micro-unit value that
/// fits.
pub open spec fn spec_change_ok(text: Seq<char>) -> bool {
    wf_signed_numeral(text) && i64::MIN <= spec_signed_micro_val(text) <= i64::MAX
}

/// The characters of the string under `key` when the body is a JSON
/// object whose `key` member is a string; nothing otherwise.
pub uninterp spec fn object_string_of(body: Seq<char>, key: Seq<char>) -> Option<Seq<char>>;

/// The defect that keeps [`object_string_of`] empty: `InvalidJson` when
/// the body is not JSON, `UnexpectedFormat` when it is no object,
/// `MissingField` naming `key` when the member is absent, `NotANumber`
/// naming `key` when the member is no string.  Nothing when the text is
/// there.
pub uninterp spec fn object_string_defect_of(body: Seq<char>, key: Seq<char>) -> Option<
    FetchError,
>;

/// Relies on serde_json::from_str, Value::is_object, Value::get and
/// Value::as_str: the string member `key` of the body's JSON object, or
/// the defect that prevents reading it.
#[verifier::external_body]
fn extract_object_string(body: &str, key: &str) -> (r: Result<String, FetchError>)
    ensures
        r is Ok <==> object_string_of(body@, key@) is Some,
        r is Ok ==> r->Ok_0@ == object_string_of(body@, key@)->0,
        r is Err ==> Some(r->Err_0) == object_string_defect_of(body@, key@),
        r is Err ==> !(r->Err_0 is Network),
{
    let v: serde_json::Value = match serde_json::from_str(body) { Ok(v) => v, Err(_) => return Err(FetchError::InvalidJson) };
    if !v.is_object() {
        return Err(FetchError::UnexpectedFormat);
    }
    let m = match v.get(key) { Some(m) => m, None => return Err(FetchError::MissingField(key.to_owned())) };
    match m.as_str() {
        Some(s) => Ok(s.to_owned()),
        None => Err(FetchError::NotANumber(key.to_owned())),
    }
}

/// The numeral text of the number under `key` when the body is JSON with
/// a number member `key`; nothing otherwise.  For extreme magnitudes the
/// rendering may use exponent notation, which the numeral parser then
/// rejects; realistic rates are rendered plainly.
pub uninterp spec fn number_text_of(body: Seq<char>, key: Seq<char>) -> Option<Seq<char>>;

/// The defect that keeps [`number_text_of`] empty: `InvalidJson`,
/// `MissingField` naming `key`, or `NotANumber` naming `key` when the
/// member is there but no number.
pub uninterp spec fn number_defect_of(body: Seq<char>, key: Seq<char>) -> Option<FetchError>;

/// Relies on serde_json::from_str, Value::get, Value::is_number and
/// serde_json::to_string: the numeral text of the number member `key`,
/// or the defect that prevents reading it.
#[verifier::external_body]
fn extract_number_text(body: &str, key: &str) -> (r: Result<String, FetchError>)
    ensures
        r is Ok <==> number_text_of(body@, key@) is Some,
        r is Ok ==> r->Ok_0@ == number_text_of(body@, key@)->0,
        r is Err ==> Some(r->Err_0) == number_defect_of(body@, key@),
        r is Err ==> !(r->Err_0 is Network),
{
    let v: serde_json::Value = match serde_json::from_str(body) { Ok(v) => v, Err(_) => return Err(FetchError::InvalidJson) };
    let m = match v.get(key) { Some(m) => m, None => return Err(FetchError::MissingField(key.to_owned())) };
    match serde_json::to_string(m) {
        Ok(t) if m.is_number() => Ok(t),
        _ => Err(FetchError::NotANumber(key.to_owned())),
    }
}

/// The numeral text of the number under `key1.key2` when the body is
/// JSON holding an object member `key1` with a number member `key2`;
/// nothing otherwise.
pub uninterp spec fn nested_number_text_of(
    body: Seq<char>,
    key1: Seq<char>,
    key2: Seq<char>,
) -> Option<Seq<char>>;

/// The defect that keeps [`nested_number_text_of`] empty: `InvalidJson`,
/// `MissingField` naming the first absent key, or `NotANumber` naming
/// `key2` when that member is no number.
pub uninterp spec fn nested_number_defect_of(
    body: Seq<char>,
    key1: Seq<char>,
    key2: Seq<char>,
) -> Option<FetchError>;

/// Relies on serde_json::from_str, Value::get, Value::is_number and
/// serde_json::to_string: the numeral text of the number under
/// `key1.key2`, or the defect that prevents reading it.
#[verifier::external_body]
fn extract_nested_number_text(body: &str, key1: &str, key2: &str) -> (r: Result<
    String,
    FetchError,
>)
    ensures
        r is Ok <==> nested_number_text_of(body@, key1@, key2@) is Some,
        r is Ok ==> r->Ok_0@ == nested_number_text_of(body@, key1@, key2@)->0,
        r is Err ==> Some(r->Err_0) == nested_number_defect_of(body@, key1@, key2@),
        r is Err ==> !(r->Err_0 is Network),
{
    let v: serde_json::Value = match serde_json::from_str(body) { Ok(v) => v, Err(_) => return Err(FetchError::InvalidJson) };
    let inner = match v.get(key1) { Some(m) => m, None => return Err(FetchError::MissingField(key1.to_owned())) };
    let m = match inner.get(key2) { Some(m) => m, None => return Err(FetchError::MissingField(key2.to_owned())) };
    match serde_json::to_string(m) {
        Ok(t) if m.is_number() => Ok(t),
        _ => Err(FetchError::NotANumber(key2.to_owned())),
    }
}

/// The code and message of the error payload some providers answer with
/// — a `status` member holding `error_code` and `error_message` — when
/// the body carries one; an absent or non-string message reads as empty.
pub uninterp spec fn upstream_error_of(body: Seq<char>) -> Option<(u64, Seq<char>)>;

/// Relies on serde_json::from_str, Value::get, Value::as_u64 and
/// Value::as_str: the upstream error payload of the body, if any.
#[verifier::external_body]
fn extract_upstream_error(body: &str) -> (r: Option<(u64, String)>)
    ensures
        r is Some <==> upstream_error_of(body@) is Some,
        r is Some ==> (r->0).0 == (upstream_error_of(body@)->0).0 && ((r->0).1)@ == (
        upstream_error_of(body@)->0).1,
{
    let v: serde_json::Value = serde_json::from_str(body).ok()?;
    let status = v.get("status")?;
    let code = status.get("error_code")?.as_u64()?;
    let message = match status.get("error_message") {
        Some(m) => match m.as_str() {
            Some(m) => m.to_owned(),
            None => String::new(),
        },
        None => String::new(),
    };
    Some((code, message))
}

/// A price numeral taken from a response, as micro-units.  Succeeds
/// exactly on a well-formed unsigned decimal numeral whose value fits.
pub fn price_from_text(field: &str, text: &str) -> (r: Result<u64, FetchError>)
    ensures
        r is Ok <==> spec_micro_ok(text@),
        r is Ok ==> r->Ok_0 == spec_micro_val(text@),
        r is Err ==> r->Err_0 is NotANumber && r->Err_0->NotANumber_0@ == field@,
{
    match parse_decimal_micro(text) {
        Some(v) => Ok(v),
        None => Err(FetchError::NotANumber(copy_str(field))),
    }
}

/// A signed change numeral taken from a response, as signed micro-units.
pub fn change_from_text(field: &str, text: &str) -> (r: Result<i64, FetchError>)
    ensures
        r is Ok <==> spec_change_ok(text@),
        r is Ok ==> r->Ok_0 == spec_signed_micro_val(text@),
        r is Err ==> r->Err_0 is NotANumber && r->Err_0->NotANumber_0@ == field@,
{
    match parse_signed_decimal_micro(text) {
        Some(v) => Ok(v),
        None => Err(FetchError::NotANumber(copy_str(field))),
    }
}

/// An owned copy of a string slice.
fn copy_str(s: &str) -> (r: String)
    ensures
        r@ == s@,
{
    s.to_owned()
}

/// Validate a ticker-price body: an object whose `price` member holds
/// the rate as a decimal string.  Succeeds exactly when that string is
/// there and is a fitting numeral; the shape defect or the numeral
/// defect is surfaced otherwise, and no error is retryable.
pub fn parse_binance_price(body: &str) -> (r: Result<u64, FetchError>)
    ensures
        r is Ok <==> (object_string_of(body@, "price"@) is Some && spec_micro_ok(
            object_string_of(body@, "price"@)->0,
        )),
        r is Ok ==> r->Ok_0 == spec_micro_val(object_string_of(body@, "price"@)->0),
        object_string_of(body@, "price"@) is None ==> Some(r->Err_0) == object_string_defect_of(
            body@,
            "price"@,
        ),
        object_string_of(body@, "price"@) is Some && !spec_micro_ok(
            object_string_of(body@, "price"@)->0,
        ) ==> r->Err_0 is NotANumber && r->Err_0->NotANumber_0@ == "price"@,
        r is Err ==> !(r->Err_0 is Network),
{
    match extract_object_string(body, "price") {
        Ok(text) => price_from_text("price", text.as_str()),
        Err(e) => Err(e),
    }
}

/// Validate a 24-hour ticker body: an object whose `lastPrice` and
/// `priceChangePercent` members hold numerals as strings.  Succeeds
/// exactly when both are there and parse; the first defect, in that
/// order, is surfaced otherwise.
pub fn parse_binance_price_with_change(body: &str) -> (r: Result<(u64, i64), FetchError>)
    ensures
        r is Ok <==> (object_string_of(body@, "lastPrice"@) is Some && spec_micro_ok(
            object_string_of(body@, "lastPrice"@)->0,
        ) && object_string_of(body@, "priceChangePercent"@) is Some && spec_change_ok(
            object_string_of(body@, "priceChangePercent"@)->0,
        )),
        r is Ok ==> r->Ok_0.0 == spec_micro_val(object_string_of(body@, "lastPrice"@)->0)
            && r->Ok_0.1 == spec_signed_micro_val(
            object_string_of(body@, "priceChangePercent"@)->0,
        ),
        object_string_of(body@, "lastPrice"@) is None ==> Some(r->Err_0)
            == object_string_defect_of(body@, "lastPrice"@),
        object_string_of(body@, "lastPrice"@) is Some && !spec_micro_ok(
            object_string_of(body@, "lastPrice"@)->0,
        ) ==> r->Err_0 is NotANumber && r->Err_0->NotANumber_0@ == "lastPrice"@,
        object_string_of(body@, "lastPrice"@) is Some && spec_micro_ok(
            object_string_of(body@, "lastPrice"@)->0,
        ) && object_string_of(body@, "priceChangePercent"@) is None ==> Some(r->Err_0)
            == object_string_defect_of(body@, "priceChangePercent"@),
        object_string_of(body@, "lastPrice"@) is Some && spec_micro_ok(
            object_string_of(body@, "lastPrice"@)->0,
        ) && object_string_of(body@, "priceChangePercent"@) is Some && !spec_change_ok(
            object_string_of(body@, "priceChangePercent"@)->0,
        ) ==> r->Err_0 is NotANumber && r->Err_0->NotANumber_0@ == "priceChangePercent"@,
        r is Err ==> !(r->Err_0 is Network),
{
    let price_text = match extract_object_string(body, "lastPrice") {
        Ok(t) => t,
        Err(e) => {
            return Err(e);
        },
    };
    let price = match price_from_text("lastPrice", price_text.as_str()) {
        Ok(p) => p,
        Err(e) => {
            return Err(e);
        },
    };
    let change_text = match extract_object_string(body, "priceChangePercent") {
        Ok(t) => t,
        Err(e) => {
            return Err(e);
        },
    };
    let change = match change_from_text("priceChangePercent", change_text.as_str()) {
        Ok(c) => c,
        Err(e) => {
            return Err(e);
        },
    };
    Ok((price, change))
}

/// Validate a simple-price body: `{coin: {"usd": number}}`, unless the
/// body carries an upstream error payload, which takes precedence and is
/// surfaced with its code and message.  Succeeds exactly when no payload
/// is there and the `usd` numeral is there and fits.
pub fn parse_coingecko_price(body: &str, coin: &str) -> (r: Result<u64, FetchError>)
    ensures
        upstream_error_of(body@) is Some ==> r is Err && (r->Err_0 matches FetchError::Upstream {
            code,
            message,
        } && code == (upstream_error_of(body@)->0).0 && message@ == (upstream_error_of(
            body@,
        )->0).1),
        upstream_error_of(body@) is None ==> (r is Ok <==> (nested_number_text_of(
            body@,
            coin@,
            "usd"@,
        ) is Some && spec_micro_ok(nested_number_text_of(body@, coin@, "usd"@)->0))),
        upstream_error_of(body@) is None && r is Ok ==> r->Ok_0 == spec_micro_val(
            nested_number_text_of(body@, coin@, "usd"@)->0,
        ),
        upstream_error_of(body@) is None && nested_number_text_of(body@, coin@, "usd"@) is None
            ==> Some(r->Err_0) == nested_number_defect_of(body@, coin@, "usd"@),
        upstream_error_of(body@) is None && nested_number_text_of(body@, coin@, "usd"@) is Some
            && !spec_micro_ok(nested_number_text_of(body@, coin@, "usd"@)->0) ==> r->Err_0
            is NotANumber && r->Err_0->NotANumber_0@ == "usd"@,
        r is Err ==> !(r->Err_0 is Network),
{
    match extract_upstream_error(body) {
        Some((code, message)) => Err(FetchError::Upstream { code, message }),
        None => match extract_nested_number_text(body, coin, "usd") {
            Ok(text) => price_from_text("usd", text.as_str()),
            Err(e) => Err(e),
        },
    }
}

/// Validate a simple-price body that also carries the 24-hour change:
/// `{coin: {"usd": number, "usd_24h_change": number}}`.  Succeeds exactly
/// when both numerals are there and fit; the first defect, in that
/// order, is surfaced otherwise.
pub fn parse_coingecko_price_with_change(body: &str, coin: &str) -> (r: Result<
    (u64, i64),
    FetchError,
>)
    ensures
        r is Ok <==> (nested_number_text_of(body@, coin@, "usd"@) is Some && spec_micro_ok(
            nested_number_text_of(body@, coin@, "usd"@)->0,
        ) && nested_number_text_of(body@, coin@, "usd_24h_change"@) is Some && spec_change_ok(
            nested_number_text_of(body@, coin@, "usd_24h_change"@)->0,
        )),
        r is Ok ==> r->Ok_0.0 == spec_micro_val(nested_number_text_of(body@, coin@, "usd"@)->0)
            && r->Ok_0.1 == spec_signed_micro_val(
            nested_number_text_of(body@, coin@, "usd_24h_change"@)->0,
        ),
        nested_number_text_of(body@, coin@, "usd"@) is None ==> Some(r->Err_0)
            == nested_number_defect_of(body@, coin@, "usd"@),
        nested_number_text_of(body@, coin@, "usd"@) is Some && !spec_micro_ok(
            nested_number_text_of(body@, coin@, "usd"@)->0,
        ) ==> r->Err_0 is NotANumber && r->Err_0->NotANumber_0@ == "usd"@,
        nested_number_text_of(body@, coin@, "usd"@) is Some && spec_micro_ok(
            nested_number_text_of(body@, coin@, "usd"@)->0,
        ) && nested_number_text_of(body@, coin@, "usd_24h_change"@) is None ==> Some(r->Err_0)
            == nested_number_defect_of(body@, coin@, "usd_24h_change"@),
        nested_number_text_of(body@, coin@, "usd"@) is Some && spec_micro_ok(
            nested_number_text_of(body@, coin@, "usd"@)->0,
        ) && nested_number_text_of(body@, coin@, "usd_24h_change"@) is Some && !spec_change_ok(
            nested_number_text_of(body@, coin@, "usd_24h_change"@)->0,
        ) ==> r->Err_0 is NotANumber && r->Err_0->NotANumber_0@ == "usd_24h_change"@,
        r is Err ==> !(r->Err_0 is Network),
{
    let price_text = match extract_nested_number_text(body, coin, "usd") {
        Ok(t) => t,
        Err(e) => {
            return Err(e);
        },
    };
    let price = match price_from_text("usd", price_text.as_str()) {
        Ok(p) => p,
        Err(e) => {
            return Err(e);
        },
    };
    let change_text = match extract_nested_number_text(body, coin, "usd_24h_change") {
        Ok(t) => t,
        Err(e) => {
            return Err(e);
        },
    };
    let change = match change_from_text("usd_24h_change", change_text.as_str()) {
        Ok(c) => c,
        Err(e) => {
            return Err(e);
        },
    };
    Ok((price, change))
}

/// Validate a currency-conversion body: `{to: number}` for the target
/// currency code.  Succeeds exactly when that numeral is there and fits.
pub fn parse_currency_rate(body: &str, to: &str) -> (r: Result<u64, FetchError>)
    ensures
        r is Ok <==> (number_text_of(body@, to@) is Some && spec_micro_ok(
            number_text_of(body@, to@)->0,
        )),
        r is Ok ==> r->Ok_0 == spec_micro_val(number_text_of(body@, to@)->0),
        number_text_of(body@, to@) is None ==> Some(r->Err_0) == number_defect_of(body@, to@),
        number_text_of(body@, to@) is Some && !spec_micro_ok(number_text_of(body@, to@)->0)
            ==> r->Err_0 is NotANumber && r->Err_0->NotANumber_0@ == to@,
        r is Err ==> !(r->Err_0 is Network),
{
    match extract_number_text(body, to) {
        Ok(text) => price_from_text(to, text.as_str()),
        Err(e) => Err(e),
    }
}

/// Validate a global-metrics body: `{"data": {"btc_dominance": number,
/// "eth_dominance": number}}`, as micro-percent.  Succeeds exactly when
/// both numerals are there and fit; the first defect, in that order, is
/// surfaced otherwise.
pub fn parse_dominance(body: &str) -> (r: Result<(u64, u64), FetchError>)
    ensures
        r is Ok <==> (nested_number_text_of(body@, "data"@, "btc_dominance"@) is Some
            && spec_micro_ok(nested_number_text_of(body@, "data"@, "btc_dominance"@)->0)
            && nested_number_text_of(body@, "data"@, "eth_dominance"@) is Some && spec_micro_ok(
            nested_number_text_of(body@, "data"@, "eth_dominance"@)->0,
        )),
        r is Ok ==> r->Ok_0.0 == spec_micro_val(
            nested_number_text_of(body@, "data"@, "btc_dominance"@)->0,
        ) && r->Ok_0.1 == spec_micro_val(
            nested_number_text_of(body@, "data"@, "eth_dominance"@)->0,
        ),
        nested_number_text_of(body@, "data"@, "btc_dominance"@) is None ==> Some(r->Err_0)
            == nested_number_defect_of(body@, "data"@, "btc_dominance"@),
        nested_number_text_of(body@, "data"@, "btc_dominance"@) is Some && !spec_micro_ok(
            nested_number_text_of(body@, "data"@, "btc_dominance"@)->0,
        ) ==> r->Err_0 is NotANumber && r->Err_0->NotANumber_0@ == "btc_dominance"@,
        nested_number_text_of(body@, "data"@, "btc_dominance"@) is Some && spec_micro_ok(
            nested_number_text_of(body@, "data"@, "btc_dominance"@)->0,
        ) && nested_number_text_of(body@, "data"@, "eth_dominance"@) is None ==> Some(r->Err_0)
            == nested_number_defect_of(body@, "data"@, "eth_dominance"@),
        nested_number_text_of(body@, "data"@, "btc_dominance"@) is Some && spec_micro_ok(
            nested_number_text_of(body@, "data"@, "btc_dominance"@)->0,
        ) && nested_number_text_of(body@, "data"@, "eth_dominance"@) is Some && !spec_micro_ok(
            nested_number_text_of(body@, "data"@, "eth_dominance"@)->0,
        ) ==> r->Err_0 is NotANumber && r->Err_0->NotANumber_0@ == "eth_dominance"@,
        r is Err ==> !(r->Err_0 is Network),
{
    let btc_text = match extract_nested_number_text(body, "data", "btc_dominance") {
        Ok(t) => t,
        Err(e) => {
            return Err(e);
        },
    };
    let btc = match price_from_text("btc_dominance", btc_text.as_str()) {
        Ok(b) => b,
        Err(e) => {
            return Err(e);
        },
    };
    let eth_text = match extract_nested_number_text(body, "data", "eth_dominance") {
        Ok(t) => t,
        Err(e) => {
            return Err(e);
        },
    };
    let eth = match price_from_text("eth_dominance", eth_text.as_str()) {
        Ok(v) => v,
        Err(e) => {
            return Err(e);
        },
    };
    Ok((btc, eth))
}

} // verus!
