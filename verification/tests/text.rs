use showmarket::clock::{epoch_millis, millis_to_i64, unix_millis_now};
use showmarket::error::{refused_interval_text, MarketError};
use showmarket::handlers::klines::{get_klines, klines_request, KlineQuery, KlinesReply};
use showmarket::models::kline::{bits_or_zero, Kline};
use showmarket::text::{digit_str, push_decimal, split_fields, str_equal, strip_suffix};

fn decimal(n: u32) -> String {
    let mut out = String::new();
    push_decimal(&mut out, n);
    out
}

#[test]
fn str_equal_compares_characters() {
    assert!(str_equal("", ""));
    assert!(str_equal("1m", "1m"));
    assert!(!str_equal("1m", "1M"));
    assert!(!str_equal("1m", "1"));
    assert!(!str_equal("", "x"));
    assert!(str_equal("日线", "日线"));
    assert!(!str_equal("日线", "周线"));
}

#[test]
fn strip_suffix_gives_what_precedes() {
    assert_eq!(strip_suffix("600000.SH", ".SH"), Some("600000"));
    assert_eq!(strip_suffix("600000.SH", ".SZ"), None);
    assert_eq!(strip_suffix(".SH", ".SH"), Some(""));
    assert_eq!(strip_suffix("SH", ".SH"), None);
    assert_eq!(strip_suffix("abc", ""), Some("abc"));
    assert_eq!(strip_suffix("", ""), Some(""));
    assert_eq!(strip_suffix("平安.SZ", ".SZ"), Some("平安"));
}

#[test]
fn split_fields_splits_at_every_separator() {
    assert_eq!(split_fields("a,b,c", ','), vec!["a", "b", "c"]);
    assert_eq!(split_fields("", ','), vec![""]);
    assert_eq!(split_fields("abc", ','), vec!["abc"]);
    assert_eq!(split_fields(",", ','), vec!["", ""]);
    assert_eq!(split_fields("a,", ','), vec!["a", ""]);
    assert_eq!(split_fields(",a", ','), vec!["", "a"]);
    assert_eq!(split_fields("a,,b", ','), vec!["a", "", "b"]);
    assert_eq!(split_fields("é,ü", ','), vec!["é", "ü"]);
}

#[test]
fn split_fields_agrees_with_std() {
    for s in ["2024-02-10 09:30,1,2,3,4,5,6,7", ",,,,", "x", "a,b,", ",,a"] {
        let expected: Vec<String> = s.split(',').map(|p| p.to_string()).collect();
        assert_eq!(split_fields(s, ','), expected);
    }
}

#[test]
fn digits_are_single_characters() {
    let all: Vec<&str> = (0..10).map(digit_str).collect();
    assert_eq!(all, vec!["0", "1", "2", "3", "4", "5", "6", "7", "8", "9"]);
}

#[test]
fn decimal_has_no_leading_zeros() {
    assert_eq!(decimal(0), "0");
    assert_eq!(decimal(7), "7");
    assert_eq!(decimal(10), "10");
    assert_eq!(decimal(101), "101");
    assert_eq!(decimal(500), "500");
    assert_eq!(decimal(65535), "65535");
    assert_eq!(decimal(u32::MAX), "4294967295");
}

#[test]
fn push_decimal_appends() {
    let mut out = "lmt=".to_string();
    push_decimal(&mut out, 200);
    out.push('&');
    push_decimal(&mut out, 0);
    assert_eq!(out, "lmt=200&0");
}

#[test]
fn millis_fit_or_wrap() {
    assert_eq!(millis_to_i64(0), 0);
    assert_eq!(millis_to_i64(1_700_000_000_000), 1_700_000_000_000);
    assert_eq!(millis_to_i64(i64::MAX as u128), i64::MAX);
    assert_eq!(millis_to_i64(i64::MAX as u128 + 1), i64::MIN);
    assert_eq!(millis_to_i64(u128::MAX), -1);
    assert_eq!(millis_to_i64(1u128 << 64), 0);
    assert_eq!(millis_to_i64((1u128 << 64) + 5), 5);
}

#[test]
fn epoch_millis_of_a_clock_before_the_epoch_is_zero() {
    assert_eq!(epoch_millis(None), 0);
    assert_eq!(epoch_millis(Some(12)), 12);
}

#[test]
fn unix_millis_now_moves_forward() {
    let a = unix_millis_now();
    let b = unix_millis_now();
    assert!(a > 1_600_000_000_000);
    assert!(b >= a);
}

#[test]
fn error_messages() {
    assert_eq!(MarketError::UnsupportedSymbol.message(), "unsupported symbol");
    assert_eq!(MarketError::UnsupportedInterval.message(), "unsupported interval");
    assert_eq!(MarketError::EmptyKlineData.message(), "empty kline data");
    assert_eq!(MarketError::EmptyQuoteData.message(), "empty quote data");
    assert_eq!(refused_interval_text("2m"), "unsupported interval: 2m");
    assert_eq!(refused_interval_text(""), "unsupported interval: ");
    assert_eq!(MarketError::InvalidPrice.message(), "invalid price");
    assert_eq!(MarketError::MalformedBody.message(), "malformed body");
}

#[test]
fn query_without_interval_asks_for_one_minute() {
    let query = KlineQuery { interval: None };
    assert_eq!(query.interval_or_default(), "1m");
    assert_eq!(
        klines_request("600000.SH", &query),
        Ok("https://push2his.eastmoney.com/api/qt/stock/kline/get?secid=1.600000&klt=101&fqt=1&end=20500101&lmt=200&fields1=f1,f2,f3,f4,f5&fields2=f51,f52,f53,f54,f55,f56,f57,f58".to_string())
    );
}

#[test]
fn query_with_interval_asks_for_it() {
    let query = KlineQuery { interval: Some("1w".to_string()) };
    assert_eq!(query.interval_or_default(), "1w");
    let url = klines_request("000001.SZ", &query).unwrap();
    assert!(url.contains("secid=0.000001&klt=107&"));
    assert!(url.contains("&lmt=200&"));
}

#[test]
fn query_with_bad_input_is_refused() {
    let bad = KlineQuery { interval: Some("2m".to_string()) };
    assert_eq!(klines_request("600000.SH", &bad), Err(MarketError::UnsupportedInterval));
    assert_eq!(klines_request("BTCUSDT", &KlineQuery { interval: None }), Err(MarketError::UnsupportedSymbol));
}

#[test]
fn klines_reply_hides_the_reason() {
    let ok = get_klines(Some(Vec::<Kline>::new()));
    assert_eq!(ok, KlinesReply::Candles(Vec::new()));
    assert_eq!(ok.status(), 200);
    assert_eq!(ok.message(), None);
    let reply = get_klines(None);
    assert_eq!(reply, KlinesReply::Unavailable);
    assert_eq!(reply.status(), 502);
    assert_eq!(reply.message(), Some("failed to fetch klines from Ashare service".to_string()));
}

#[test]
fn unreadable_quantity_counts_as_zero() {
    let read = |text: &str| f64::from_bits(bits_or_zero(text.parse::<f64>().ok().map(f64::to_bits)));
    assert_eq!(read("abc"), 0.0);
    assert_eq!(read(""), 0.0);
    assert_eq!(read("10.25"), 10.25);
    assert_eq!(read("-3"), -3.0);
    assert!(read("abc").is_sign_positive());
}
