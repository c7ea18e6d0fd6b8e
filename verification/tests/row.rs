use wallet_trades::model::{DexEvent, Events, NativeTransfer, TokenTransfer, Transaction};
use wallet_trades::price::Price;
use wallet_trades::row::{
    build_row, native_change_text, short_signature_of, token_change_text, RowError,
    SIGNATURE_WIDTH, TOKEN_DECIMALS,
};

fn text(s: &str) -> Option<String> {
    Some(s.to_string())
}

fn native(from: &str, to: &str, amount: &str) -> NativeTransfer {
    NativeTransfer {
        from_user_account: text(from),
        to_user_account: text(to),
        amount: text(amount),
    }
}

fn token(from: &str, to: &str, amount: &str, mint: &str, standard: Option<&str>) -> TokenTransfer {
    TokenTransfer {
        from_user_account: text(from),
        to_user_account: text(to),
        token_amount: text(amount),
        mint: text(mint),
        token_standard: standard.map(|s| s.to_string()),
    }
}

fn record(signature: &str, timestamp: u64) -> Transaction {
    Transaction {
        signature: signature.to_string(),
        timestamp,
        native_transfers: None,
        token_transfers: None,
        events: None,
        logs: None,
        transaction_error: None,
    }
}

#[test]
fn row_of_half_a_unit_sent_shows_the_debit() {
    let mut tx = record("5VERv8NMvzbJMEkV8xnrLkEaWRtSz9CosKDYjCJjBRnbJLgp8uirBgmQpjKhoR4tjF3ZpRzrFmBV6UjKdiSZkQUW", 1_700_000_000);
    tx.native_transfers = Some(vec![native("W", "X", "500000000")]);
    let row = build_row(&tx, "W", "").unwrap();
    assert_eq!(row.sol_change, "-0.500000000");
    assert_eq!(row.time, "2023-11-14T22:13:20");
    assert_eq!(row.sig, "5VERv8NMvz\u{2026}");
    assert_eq!(row.execution, "OTHER");
    assert_eq!(row.route, "");
    assert_eq!(row.direction, "");
    assert_eq!(row.token_change, "");
    assert_eq!(row.price, None);
}

#[test]
fn row_of_a_bare_record_has_zero_changes() {
    let row = build_row(&record("", 0), "W", "").unwrap();
    assert_eq!(row.time, "1970-01-01T00:00:00");
    assert_eq!(row.sig, "\u{2026}");
    assert_eq!(row.execution, "OTHER");
    assert_eq!(row.route, "");
    assert_eq!(row.sol_change, "0.000000000");
    assert_eq!(row.token_change, "");
    assert_eq!(row.price, None);
    let tracking = build_row(&record("", 0), "W", "MINT").unwrap();
    assert_eq!(tracking.direction, "NEUTRAL");
    assert_eq!(tracking.token_change, "0");
    assert_eq!(tracking.price, None);
}

#[test]
fn row_of_a_buy_tells_change_direction_and_price() {
    let mut tx = record("buy-signature", 1_431_648_000);
    tx.native_transfers = Some(vec![native("W", "POOL", "2000000000")]);
    tx.token_transfers = Some(vec![
        token("POOL", "W", "1000000", "MINT", Some("fungible")),
        token("POOL", "W", "999", "ELSE", None),
    ]);
    tx.events = Some(Events {
        swap: None,
        dex: Some(vec![DexEvent { market: text("PHOENIX"), program_info: None }]),
    });
    let row = build_row(&tx, "W", "MINT").unwrap();
    assert_eq!(row.time, "2015-05-15T00:00:00");
    assert_eq!(row.sig, "buy-signat\u{2026}");
    assert_eq!(row.execution, "LIMIT");
    assert_eq!(row.route, "Phoenix");
    assert_eq!(row.direction, "BUY");
    assert_eq!(row.sol_change, "-2.000000000");
    assert_eq!(row.token_change, "1");
    assert_eq!(
        row.price,
        Some(Price { native: 2_000_000_000, token: 1_000_000, token_decimals: 6 })
    );
}

#[test]
fn row_of_a_sale_is_named_sell() {
    let mut tx = record("s", 0);
    tx.native_transfers = Some(vec![native("POOL", "W", "750000000")]);
    tx.token_transfers = Some(vec![token("W", "POOL", "1500000", "MINT", None)]);
    let row = build_row(&tx, "W", "MINT").unwrap();
    assert_eq!(row.direction, "SELL");
    assert_eq!(row.sol_change, "0.750000000");
    assert_eq!(row.token_change, "-1.5");
    assert_eq!(
        row.price,
        Some(Price { native: 750_000_000, token: 1_500_000, token_decimals: 6 })
    );
}

#[test]
fn row_scales_every_token_by_six_decimals() {
    for standard in [Some("fungible"), Some("nonFungible"), Some("other"), None] {
        let mut tx = record("s", 0);
        tx.native_transfers = Some(vec![native("W", "POOL", "1")]);
        tx.token_transfers = Some(vec![token("POOL", "W", "1234567", "MINT", standard)]);
        let row = build_row(&tx, "W", "MINT").unwrap();
        assert_eq!(row.token_change, "1.234567");
        assert_eq!(row.price.unwrap().token_decimals, 6);
    }
    assert_eq!(TOKEN_DECIMALS, 6);
}

#[test]
fn row_without_native_flow_has_no_price() {
    let mut tx = record("s", 0);
    tx.token_transfers = Some(vec![token("POOL", "W", "5", "MINT", None)]);
    let row = build_row(&tx, "W", "MINT").unwrap();
    assert_eq!(row.direction, "BUY");
    assert_eq!(row.token_change, "0.000005");
    assert_eq!(row.price, None);
}

#[test]
fn row_does_not_read_tokens_where_none_is_tracked() {
    let max = "170141183460469231731687303715884105727";
    let mut tx = record("s", 0);
    tx.token_transfers = Some(vec![
        token("POOL", "W", max, "", None),
        token("POOL", "W", max, "", None),
    ]);
    let row = build_row(&tx, "W", "").unwrap();
    assert_eq!(row.direction, "");
    assert_eq!(row.token_change, "");
    assert_eq!(row.price, None);
}

#[test]
fn row_fails_where_the_native_total_overflows() {
    let max = "170141183460469231731687303715884105727";
    let mut tx = record("s", u64::MAX / 2);
    tx.native_transfers = Some(vec![native("X", "W", max), native("X", "W", "1")]);
    tx.token_transfers = Some(vec![
        token("X", "W", max, "MINT", None),
        token("X", "W", max, "MINT", None),
    ]);
    assert_eq!(build_row(&tx, "W", "MINT").unwrap_err(), RowError::NativeOverflow);
    assert_eq!(build_row(&tx, "W", "").unwrap_err(), RowError::NativeOverflow);
}

#[test]
fn row_fails_where_the_token_total_overflows() {
    let max = "170141183460469231731687303715884105727";
    let mut tx = record("s", u64::MAX / 2);
    tx.token_transfers = Some(vec![
        token("X", "W", max, "MINT", None),
        token("X", "W", max, "MINT", None),
    ]);
    assert_eq!(build_row(&tx, "W", "MINT").unwrap_err(), RowError::TokenOverflow);
    assert_eq!(build_row(&tx, "W", "ELSE").unwrap_err(), RowError::TimestampOutOfRange);
}

#[test]
fn row_fails_where_the_calendar_ends() {
    assert_eq!(
        build_row(&record("s", 8_210_266_876_800), "W", "").unwrap_err(),
        RowError::TimestampOutOfRange
    );
    assert!(build_row(&record("s", 8_210_266_876_799), "W", "").is_ok());
}

#[test]
fn short_signature_keeps_ten_characters() {
    assert_eq!(SIGNATURE_WIDTH, 10);
    assert_eq!(short_signature_of(""), "\u{2026}");
    assert_eq!(short_signature_of("abc"), "abc\u{2026}");
    assert_eq!(short_signature_of("0123456789"), "0123456789\u{2026}");
    assert_eq!(short_signature_of("0123456789a"), "0123456789\u{2026}");
    assert_eq!(short_signature_of("0123456789abcdefghij"), "0123456789\u{2026}");
}

#[test]
fn short_signature_counts_characters_not_bytes() {
    assert_eq!(
        short_signature_of("\u{00e9}\u{00e9}\u{00e9}\u{00e9}\u{00e9}\u{00e9}\u{00e9}\u{00e9}\u{00e9}\u{00e9}\u{00e9}\u{00e9}"),
        "\u{00e9}\u{00e9}\u{00e9}\u{00e9}\u{00e9}\u{00e9}\u{00e9}\u{00e9}\u{00e9}\u{00e9}\u{2026}"
    );
    assert_eq!(short_signature_of("012345678\u{00e9}z"), "012345678\u{00e9}\u{2026}");
}

#[test]
fn change_texts_scale_by_nine_and_six_decimals() {
    assert_eq!(native_change_text(-500_000_000), "-0.500000000");
    assert_eq!(native_change_text(1), "0.000000001");
    assert_eq!(native_change_text(25_000_000_000), "25.000000000");
    assert_eq!(token_change_text(1_500_000), "1.5");
    assert_eq!(token_change_text(-1), "-0.000001");
    assert_eq!(token_change_text(3_000_000), "3");
}
