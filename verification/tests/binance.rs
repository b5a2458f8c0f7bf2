use showmarket::error::MarketError;
use showmarket::models::kline::KlineText;
use showmarket::models::price::BinanceTickerPrice;
use showmarket::services::binance::{
    chrono_ms_now, is_interval_token, kline_from_row, klines_from_rows, parse_klines, ticker_update,
    BinancePriceService, Cell,
};

fn text(s: &str) -> Cell {
    Cell { int: None, text: Some(s.to_string()) }
}

fn whole(n: i64) -> Cell {
    Cell { int: Some(n), text: None }
}

fn other() -> Cell {
    Cell { int: None, text: None }
}

fn number(text: &str) -> f64 {
    text.parse::<f64>().unwrap_or(0.0)
}

#[test]
fn default_service_uses_the_public_address() {
    assert_eq!(
        BinancePriceService::new().ticker_url(),
        "https://api.binance.com/api/v3/ticker/price?symbol=BTCUSDT"
    );
}

#[test]
fn custom_base_url_is_used() {
    let svc = BinancePriceService::with_base_url("http://127.0.0.1:9000");
    assert_eq!(svc.ticker_url(), "http://127.0.0.1:9000/api/v3/ticker/price?symbol=BTCUSDT");
    assert_eq!(
        svc.klines_url("BTCUSDT", "1m", 200),
        Ok("http://127.0.0.1:9000/api/v3/klines?symbol=BTCUSDT&interval=1m&limit=200".to_string())
    );
}

#[test]
fn klines_url_caps_the_limit() {
    let svc = BinancePriceService::new();
    assert_eq!(
        svc.klines_url("ETHUSDT", "4h", 1000),
        Ok("https://api.binance.com/api/v3/klines?symbol=ETHUSDT&interval=4h&limit=500".to_string())
    );
    assert_eq!(
        svc.klines_url("ETHUSDT", "1M", 7),
        Ok("https://api.binance.com/api/v3/klines?symbol=ETHUSDT&interval=1M&limit=7".to_string())
    );
}

#[test]
fn klines_url_refuses_unknown_intervals() {
    let svc = BinancePriceService::new();
    assert_eq!(svc.klines_url("BTCUSDT", "2m", 10), Err(MarketError::UnsupportedInterval));
    assert_eq!(svc.klines_url("BTCUSDT", "", 10), Err(MarketError::UnsupportedInterval));
}

#[test]
fn interval_tokens_are_the_closed_set() {
    for token in ["1m", "5m", "15m", "30m", "1h", "4h", "1d", "1w", "1M"] {
        assert!(is_interval_token(token));
    }
    for token in ["2m", "1D", "1W", "", "m1", "1 m", "1mm"] {
        assert!(!is_interval_token(token));
    }
}

#[test]
fn ticker_with_a_number_gives_a_tick() {
    let ticker = BinanceTickerPrice { symbol: "BTCUSDT".to_string(), price: "42000.5".to_string() };
    let bits = ticker.price.parse::<f64>().ok().map(f64::to_bits);
    let t = ticker_update(ticker, bits, 1000).unwrap();
    assert_eq!(t.symbol, "BTCUSDT");
    assert_eq!(f64::from_bits(t.price_bits), 42000.5);
    assert_eq!(t.ts_ms, 1000);
}

#[test]
fn ticker_without_a_number_is_a_failure() {
    let ticker = BinanceTickerPrice { symbol: "BTCUSDT".to_string(), price: "n/a".to_string() };
    let bits = ticker.price.parse::<f64>().ok().map(f64::to_bits);
    assert_eq!(ticker_update(ticker, bits, 1000), Err(MarketError::InvalidPrice));
}

#[test]
fn row_with_too_few_cells_is_skipped() {
    assert_eq!(kline_from_row(&Vec::new()), None);
    assert_eq!(kline_from_row(&vec![whole(1), text("1"), text("2"), text("3"), text("4")]), None);
}

#[test]
fn row_cells_are_time_open_high_low_close_volume() {
    let row = vec![
        whole(1_700_000_000_000),
        text("1.5"),
        text("2.5"),
        text("0.5"),
        text("2.0"),
        text("100"),
        whole(1_700_000_059_999),
    ];
    assert_eq!(
        kline_from_row(&row),
        Some(KlineText {
            open_time: 1_700_000_000_000,
            open: "1.5".to_string(),
            high: "2.5".to_string(),
            low: "0.5".to_string(),
            close: "2.0".to_string(),
            volume: "100".to_string(),
        })
    );
}

#[test]
fn row_cells_of_the_wrong_kind_count_as_zero() {
    let row = vec![text("soon"), whole(3), other(), text("x"), text("2.0"), other()];
    let k = kline_from_row(&row).unwrap();
    assert_eq!(k.open_time, 0);
    assert_eq!(k.open, "0");
    assert_eq!(k.high, "0");
    assert_eq!(k.low, "x");
    assert_eq!(number(&k.low), 0.0);
    assert_eq!(k.close, "2.0");
    assert_eq!(k.volume, "0");
    assert_eq!(number(&k.volume), 0.0);
}

#[test]
fn table_drops_short_rows_and_keeps_order() {
    let rows = vec![
        vec![whole(1), text("a"), text("b"), text("c"), text("d"), text("e")],
        vec![whole(2)],
        vec![whole(3), text("f"), text("g"), text("h"), text("i"), text("j")],
    ];
    let out = klines_from_rows(&rows);
    assert_eq!(out.len(), 2);
    assert_eq!(out[0].open_time, 1);
    assert_eq!(out[0].open, "a");
    assert_eq!(out[1].open_time, 3);
    assert_eq!(out[1].volume, "j");
}

#[test]
fn parse_klines_reads_an_upstream_answer() {
    let body = br#"[
        [1499040000000,"0.01634790","0.80000000","0.01575800","0.01577100","148976.11427815",1499644799999,"2434.19055334",308,"1756.87402397","28.46694368","0"],
        [1499040060000,"0.5","0.7","0.4","0.6","12"],
        [1499040120000,"1","2"],
        [1.5,2,null,true,"9",{"a":1}]
    ]"#;
    let out = parse_klines(body).unwrap();
    assert_eq!(out.len(), 3);
    assert_eq!(
        out[0],
        KlineText {
            open_time: 1499040000000,
            open: "0.01634790".to_string(),
            high: "0.80000000".to_string(),
            low: "0.01575800".to_string(),
            close: "0.01577100".to_string(),
            volume: "148976.11427815".to_string(),
        }
    );
    assert_eq!(number(&out[0].high), 0.8);
    assert_eq!(out[1].open_time, 1499040060000);
    assert_eq!(out[1].close, "0.6");
    assert_eq!(
        out[2],
        KlineText {
            open_time: 0,
            open: "0".to_string(),
            high: "0".to_string(),
            low: "0".to_string(),
            close: "9".to_string(),
            volume: "0".to_string(),
        }
    );
}

#[test]
fn parse_klines_of_an_empty_table() {
    assert_eq!(parse_klines(b"[]"), Ok(Vec::new()));
    assert_eq!(parse_klines(b" [ [ ] , [ ] ] "), Ok(Vec::new()));
}

#[test]
fn parse_klines_reads_large_and_negative_times() {
    let out = parse_klines(br#"[[-5,"1","2","3","4","5"],[9223372036854775807,"1","2","3","4","5"],[9223372036854775808,"1","2","3","4","5"]]"#).unwrap();
    assert_eq!(out.len(), 3);
    assert_eq!(out[0].open_time, -5);
    assert_eq!(out[1].open_time, i64::MAX);
    assert_eq!(out[2].open_time, 0);
}

#[test]
fn parse_klines_refuses_other_bodies() {
    assert_eq!(parse_klines(b""), Err(MarketError::MalformedBody));
    assert_eq!(parse_klines(b"not json"), Err(MarketError::MalformedBody));
    assert_eq!(parse_klines(br#"{"code":-1121,"msg":"Invalid symbol."}"#), Err(MarketError::MalformedBody));
    assert_eq!(parse_klines(b"[1,2,3]"), Err(MarketError::MalformedBody));
    assert_eq!(parse_klines(b"[[1,2,3]"), Err(MarketError::MalformedBody));
    assert_eq!(parse_klines(&[0xff, 0xfe]), Err(MarketError::MalformedBody));
}

#[test]
fn chrono_ms_now_is_a_current_time() {
    let t = chrono_ms_now();
    assert!(t > 1_600_000_000_000);
    assert!(chrono_ms_now() >= t);
}
