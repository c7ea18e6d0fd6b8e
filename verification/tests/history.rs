use wallet_trades::history::{
    endpoint, rows_of_page, History, PageRequest, DEFAULT_LIMIT, DISPLAY_ROWS, PAGE_SIZE,
};
use wallet_trades::model::{NativeTransfer, Transaction};
use wallet_trades::row::RowError;

fn record(signature: String, timestamp: u64) -> Transaction {
    Transaction {
        signature,
        timestamp,
        native_transfers: Some(vec![NativeTransfer {
            from_user_account: Some("W".to_string()),
            to_user_account: Some("X".to_string()),
            amount: Some("1000".to_string()),
        }]),
        token_transfers: None,
        events: None,
        logs: None,
        transaction_error: None,
    }
}

fn page(first: usize, count: usize) -> Vec<Transaction> {
    (first..first + count).map(|i| record(format!("signature-{}", i), 1_700_000_000)).collect()
}

fn pair(a: &str, b: &str) -> (String, String) {
    (a.to_string(), b.to_string())
}

#[test]
fn history_stops_at_the_first_empty_page() {
    let sizes = [100usize, 100, 0];
    let mut history = History::new("W", "", 250);
    let mut asked: Vec<(Option<String>, usize)> = Vec::new();
    let mut served = 0;
    let mut next = 0;
    while let Some(request) = history.next_request() {
        asked.push((request.before.clone(), request.take));
        let answer = page(served, sizes[next]);
        served += sizes[next];
        next += 1;
        history.absorb(&answer).unwrap();
    }
    assert_eq!(history.processed(), 200);
    assert_eq!(next, 3);
    assert_eq!(
        asked,
        vec![
            (None, 100),
            (Some("signature-99".to_string()), 100),
            (Some("signature-199".to_string()), 50),
        ]
    );
    assert!(history.next_request().is_none());
}

#[test]
fn history_stops_at_the_limit() {
    let mut history = History::new("W", "", 250);
    let mut takes = Vec::new();
    let mut served = 0;
    while let Some(request) = history.next_request() {
        takes.push(request.take);
        history.absorb(&page(served, request.take)).unwrap();
        served += request.take;
    }
    assert_eq!(takes, vec![100, 100, 50]);
    assert_eq!(history.processed(), 250);
}

#[test]
fn history_with_limit_zero_asks_for_nothing() {
    let history = History::new("W", "", 0);
    assert!(history.next_request().is_none());
    assert_eq!(history.processed(), 0);
}

#[test]
fn history_asks_for_what_is_left_to_the_limit() {
    let mut history = History::new("W", "", 5);
    assert_eq!(history.next_request().unwrap().take, 5);
    history.absorb(&page(0, 2)).unwrap();
    let request = history.next_request().unwrap();
    assert_eq!(request.take, 3);
    assert_eq!(request.before, Some("signature-1".to_string()));
    history.absorb(&page(2, 3)).unwrap();
    assert!(history.next_request().is_none());
}

#[test]
fn history_takes_in_a_page_longer_than_asked() {
    let mut history = History::new("W", "", 3);
    history.absorb(&page(0, 7)).unwrap();
    assert_eq!(history.processed(), 7);
    assert!(history.next_request().is_none());
}

#[test]
fn history_asks_with_the_default_limit_four_times() {
    assert_eq!(DEFAULT_LIMIT, 400);
    assert_eq!(PAGE_SIZE, 100);
    let mut history = History::new("W", "", DEFAULT_LIMIT);
    let mut requests = 0;
    while let Some(request) = history.next_request() {
        assert_eq!(request.take, 100);
        history.absorb(&page(requests * 100, 100)).unwrap();
        requests += 1;
    }
    assert_eq!(requests, 4);
    assert_eq!(history.processed(), 400);
}

#[test]
fn history_makes_one_row_per_transaction_in_order() {
    let mut history = History::new("W", "", 10);
    history.absorb(&page(0, 2)).unwrap();
    history.absorb(&page(2, 1)).unwrap();
    let rows = history.rows();
    assert_eq!(rows.len(), 3);
    assert_eq!(rows[0].sig, "signature-\u{2026}");
    assert_eq!(rows[0].sol_change, "-0.000001000");
    assert_eq!(rows[2].time, "2023-11-14T22:13:20");
}

#[test]
fn history_shows_fifty_rows_at_most() {
    assert_eq!(DISPLAY_ROWS, 50);
    let mut history = History::new("W", "", 400);
    let answer: Vec<Transaction> =
        (0..80).map(|i| record(format!("{:010}", i), 1_700_000_000)).collect();
    history.absorb(&answer).unwrap();
    let shown = history.into_display_rows();
    assert_eq!(shown.len(), 50);
    assert_eq!(shown[0].sig, "0000000000\u{2026}");
    assert_eq!(shown[49].sig, "0000000049\u{2026}");
}

#[test]
fn history_shows_every_row_where_there_are_few() {
    let mut history = History::new("W", "", 400);
    history.absorb(&page(0, 3)).unwrap();
    assert_eq!(history.into_display_rows().len(), 3);
    assert_eq!(History::new("W", "", 400).into_display_rows().len(), 0);
}

#[test]
fn history_keeps_its_state_where_a_row_fails() {
    let mut history = History::new("W", "", 10);
    history.absorb(&page(0, 2)).unwrap();
    let mut bad = page(2, 3);
    bad[1].timestamp = 1u64 << 62;
    assert_eq!(history.absorb(&bad), Err(RowError::TimestampOutOfRange));
    assert_eq!(history.processed(), 2);
    let request = history.next_request().unwrap();
    assert_eq!(request.before, Some("signature-1".to_string()));
    assert_eq!(request.take, 8);
}

#[test]
fn rows_of_page_reports_the_first_failure() {
    let max = "170141183460469231731687303715884105727";
    let mut answer = page(0, 4);
    answer[3].timestamp = 1u64 << 62;
    answer[2].native_transfers = Some(vec![
        NativeTransfer {
            from_user_account: None,
            to_user_account: Some("W".to_string()),
            amount: Some(max.to_string()),
        },
        NativeTransfer {
            from_user_account: None,
            to_user_account: Some("W".to_string()),
            amount: Some(max.to_string()),
        },
    ]);
    assert_eq!(rows_of_page(&answer, "W", "").unwrap_err(), RowError::NativeOverflow);
    assert_eq!(rows_of_page(&answer, "Z", "").unwrap_err(), RowError::TimestampOutOfRange);
    assert_eq!(rows_of_page(&page(0, 4), "W", "").unwrap().len(), 4);
    assert_eq!(rows_of_page(&Vec::new(), "W", "").unwrap().len(), 0);
}

#[test]
fn endpoint_names_the_wallet() {
    assert_eq!(
        endpoint("So11111111111111111111111111111111111111112"),
        "https://api.helius.xyz/v0/addresses/So11111111111111111111111111111111111111112/transactions"
    );
    assert_eq!(endpoint(""), "https://api.helius.xyz/v0/addresses//transactions");
}

#[test]
fn query_names_key_and_limit_and_the_signature_before() {
    let first = PageRequest { before: None, take: 100 };
    assert_eq!(first.query("k3y"), vec![pair("api-key", "k3y"), pair("limit", "100")]);
    let later = PageRequest { before: Some("sig9".to_string()), take: 7 };
    assert_eq!(
        later.query("k3y"),
        vec![pair("api-key", "k3y"), pair("limit", "7"), pair("before", "sig9")]
    );
    let none = PageRequest { before: Some(String::new()), take: 0 };
    assert_eq!(none.query(""), vec![pair("api-key", ""), pair("limit", "0"), pair("before", "")]);
}
