use wednesday::fetch::{
    parse_binance_price, parse_binance_price_with_change, parse_coingecko_price,
    parse_coingecko_price_with_change, parse_currency_rate, parse_dominance, price_from_text,
    FetchError,
};

#[test]
fn binance_price_is_validated() {
    let body = "{\"symbol\": \"BTCUSDT\", \"price\": \"50123.45\"}";
    assert_eq!(parse_binance_price(body), Ok(50_123_450_000));
}

#[test]
fn binance_missing_field_is_terminal() {
    let body = "{\"symbol\": \"BTCUSDT\"}";
    let e = parse_binance_price(body).unwrap_err();
    assert_eq!(e, FetchError::MissingField("price".to_owned()));
    assert!(!e.is_transient());
}

#[test]
fn binance_non_object_is_rejected() {
    assert_eq!(parse_binance_price("[1, 2]"), Err(FetchError::UnexpectedFormat));
    assert_eq!(parse_binance_price("not json"), Err(FetchError::InvalidJson));
}

#[test]
fn binance_non_string_price_is_rejected() {
    let body = "{\"price\": 50123.45}";
    assert_eq!(
        parse_binance_price(body),
        Err(FetchError::NotANumber("price".to_owned()))
    );
}

#[test]
fn coingecko_price_is_validated() {
    let body = "{\"cardano\": {\"usd\": 0.45}}";
    assert_eq!(parse_coingecko_price(body, "cardano"), Ok(450_000));
}

#[test]
fn coingecko_error_payload_is_surfaced() {
    let body = "{\"status\": {\"error_code\": 429, \"error_message\": \"You have exceeded the rate limit.\"}}";
    assert_eq!(
        parse_coingecko_price(body, "cardano"),
        Err(FetchError::Upstream {
            code: 429,
            message: "You have exceeded the rate limit.".to_owned()
        })
    );
}

#[test]
fn coingecko_missing_coin_is_terminal() {
    let body = "{\"bitcoin\": {\"usd\": 1.0}}";
    assert_eq!(
        parse_coingecko_price(body, "cardano"),
        Err(FetchError::MissingField("cardano".to_owned()))
    );
}

#[test]
fn coingecko_change_is_validated() {
    let body = "{\"the-open-network\": {\"usd\": 5.25, \"usd_24h_change\": -1.5}}";
    assert_eq!(
        parse_coingecko_price_with_change(body, "the-open-network"),
        Ok((5_250_000, -1_500_000))
    );
}

#[test]
fn binance_change_is_validated() {
    let body = "{\"lastPrice\": \"610.20\", \"priceChangePercent\": \"-0.33\"}";
    assert_eq!(
        parse_binance_price_with_change(body),
        Ok((610_200_000, -330_000))
    );
}

#[test]
fn currency_rate_is_validated() {
    let body = "{\"date\": \"2024-01-01\", \"rub\": 90.5}";
    assert_eq!(parse_currency_rate(body, "rub"), Ok(90_500_000));
}

#[test]
fn dominance_is_validated() {
    let body = "{\"data\": {\"btc_dominance\": 54.32, \"eth_dominance\": 17.01}}";
    assert_eq!(parse_dominance(body), Ok((54_320_000, 17_010_000)));
}

#[test]
fn price_text_taxonomy_is_exact() {
    assert_eq!(price_from_text("usd", "1.25"), Ok(1_250_000));
    assert_eq!(
        price_from_text("usd", "abc"),
        Err(FetchError::NotANumber("usd".to_owned()))
    );
}
