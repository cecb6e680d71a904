use alpha_sync::errors::SyncError;
use alpha_sync::tops::{parse_i32, MostActivelyTraded, Root, TopGainer, TopLoser};

#[test]
fn integers_in_range_parse_exactly() {
    assert_eq!(parse_i32("42", "test").unwrap(), 42);
    assert_eq!(parse_i32("+42", "test").unwrap(), 42);
    assert_eq!(parse_i32("-42", "test").unwrap(), -42);
    assert_eq!(parse_i32("0007", "test").unwrap(), 7);
    assert_eq!(parse_i32("2147483647", "test").unwrap(), i32::MAX);
    assert_eq!(parse_i32("-2147483648", "test").unwrap(), i32::MIN);
}

#[test]
fn malformed_or_oversized_integers_report_the_field() {
    for bad in ["", "invalid", "1.5", "-", "+", "12a", "2147483648", "-2147483649", "99999999999999999999"] {
        match parse_i32(bad, "volume") {
            Err(SyncError::Parse { field, value }) => {
                assert_eq!(field, "volume");
                assert_eq!(value, bad);
            }
            Ok(v) => panic!("{:?} parsed to {}", bad, v),
            Err(_) => panic!("wrong error variant"),
        }
    }
}

#[test]
fn top_mover_rows_carry_the_quoted_fields() {
    let gainer = TopGainer {
        ticker: String::from("TEST"),
        price: String::from("100.50"),
        change_amount: String::from("5.25"),
        change_percentage: String::from("5.5%"),
        volume: String::from("1000000"),
    };
    assert_eq!(parse_i32(&gainer.volume, "volume").unwrap(), 1_000_000);

    let root = Root {
        metadata: String::from("Top gainers, losers, and most actively traded US tickers"),
        last_updated: String::from("2024-01-02 16:15:59 US/Eastern"),
        top_gainers: vec![gainer],
        top_losers: vec![TopLoser::default()],
        most_actively_traded: vec![MostActivelyTraded::default()],
    };
    assert_eq!(root.top_gainers.len(), 1);
    assert_eq!(root.top_gainers[0].ticker, "TEST");
}
