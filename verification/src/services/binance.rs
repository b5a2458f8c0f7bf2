//! The Binance upstream: request addresses, ticker quotes and candle rows.

use crate::clock::unix_millis_now;
use crate::error::MarketError;
use crate::models::kline::{KlineText, KlineTextView};
use crate::models::price::{BinanceTickerPrice, PriceUpdate};
use crate::text::{decimal, push_decimal, str_equal};
use vstd::prelude::*;
use vstd::string::StringExecFns;

verus! {

/// The failure of `serde_json`, carried as an opaque value.
#[verifier::external_type_specification]
#[verifier::external_body]
pub struct ExJsonError(serde_json::Error);

/// The most records that one candle request asks for.
pub const MAX_KLINE_LIMIT: u16 = 500;

/// What the candle logic reads of one JSON value: the integer that it is, if
/// it is one that fits in 64 signed bits, and the text that it is, if it is a
/// string. A value of any other kind has neither.
#[derive(Debug, Clone, PartialEq, Eq)]
pub struct Cell {
    pub int: Option<i64>,
    pub text: Option<String>,
}

/// What a `Cell` holds, as mathematical values.
pub struct CellView {
    pub int: Option<i64>,
    pub text: Option<Seq<char>>,
}

impl View for Cell {
    type V = CellView;

    open spec fn view(&self) -> CellView {
        CellView {
            int: self.int,
            text: match self.text {
                Some(t) => Some(t@),
                None => None,
            },
        }
    }
}

/// The views of the cells of one row.
pub open spec fn row_view(row: Seq<Cell>) -> Seq<CellView> {
    Seq::new(row.len(), |i: int| row[i]@)
}

/// The views of the rows of a table.
pub open spec fn rows_view(rows: Seq<Vec<Cell>>) -> Seq<Seq<CellView>> {
    Seq::new(rows.len(), |i: int| row_view(rows[i]@))
}

/// The views of a sequence of bars.
pub open spec fn klines_view(klines: Seq<KlineText>) -> Seq<KlineTextView> {
    Seq::new(klines.len(), |i: int| klines[i]@)
}

/// What `serde_json::from_slice` reads from `body` as an array of arrays of
/// JSON values, each value reduced to a cell, or `None` where it refuses the
/// bytes.
pub uninterp spec fn json_rows(body: Seq<u8>) -> Option<Seq<Seq<CellView>>>;

/// Calls `serde_json::from_slice` for an array of arrays of JSON values, and
/// reduces each value to a cell with `Value::as_i64` and `Value::as_str`. The
/// result depends on the bytes alone and is named by `json_rows`; nothing else
/// is claimed of it.
#[verifier::external_body]
fn decode_rows(body: &[u8]) -> (r: Result<Vec<Vec<Cell>>, serde_json::Error>)
    ensures
        match r {
            Ok(rows) => json_rows(body@) == Some(rows_view(rows@)),
            Err(_) => json_rows(body@) is None,
        },
{
    let rows: Vec<Vec<serde_json::Value>> = serde_json::from_slice(body)?;
    Ok(
        rows.iter().map(
            |row|
                row.iter().map(
                    |v| Cell { int: v.as_i64(), text: v.as_str().map(String::from) },
                ).collect(),
        ).collect(),
    )
}

/// Whether the text is one of the interval tokens.
pub open spec fn is_interval(token: Seq<char>) -> bool {
    ||| token == "1m"@
    ||| token == "5m"@
    ||| token == "15m"@
    ||| token == "30m"@
    ||| token == "1h"@
    ||| token == "4h"@
    ||| token == "1d"@
    ||| token == "1w"@
    ||| token == "1M"@
}

/// The text of a cell, and `"0"` for a cell that is no string.
pub open spec fn text_or_zero(cell: CellView) -> Seq<char> {
    match cell.text {
        Some(t) => t,
        None => "0"@,
    }
}

/// The bar of a row of at least six cells: the opening time, then open,
/// high, low, close and volume. An opening time that is no integer counts as
/// zero.
pub open spec fn kline_of_row(row: Seq<CellView>) -> KlineTextView {
    KlineTextView {
        open_time: match row[0].int {
            Some(t) => t,
            None => 0,
        },
        open: text_or_zero(row[1]),
        high: text_or_zero(row[2]),
        low: text_or_zero(row[3]),
        close: text_or_zero(row[4]),
        volume: text_or_zero(row[5]),
    }
}

/// The bars of the rows that have at least six cells, in the rows' order.
pub open spec fn klines_of_rows(rows: Seq<Seq<CellView>>) -> Seq<KlineTextView>
    decreases rows.len(),
{
    if rows.len() == 0 {
        Seq::empty()
    } else {
        let before = klines_of_rows(rows.drop_last());
        if rows.last().len() >= 6 {
            before.push(kline_of_row(rows.last()))
        } else {
            before
        }
    }
}

/// The address of the ticker request under a base address.
pub open spec fn ticker_url_of(base: Seq<char>) -> Seq<char> {
    base + "/api/v3/ticker/price?symbol=BTCUSDT"@
}

/// The address of a candle request under a base address.
pub open spec fn klines_url_of(
    base: Seq<char>,
    symbol: Seq<char>,
    interval: Seq<char>,
    limit: u16,
) -> Seq<char> {
    base + "/api/v3/klines?symbol="@ + symbol + "&interval="@ + interval + "&limit="@ + decimal(
        limit as nat,
    )
}

/// Whether the text is one of the interval tokens.
pub fn is_interval_token(token: &str) -> (r: bool)
    ensures
        r == is_interval(token@),
{
    str_equal(token, "1m") || str_equal(token, "5m") || str_equal(token, "15m") || str_equal(
        token,
        "30m",
    ) || str_equal(token, "1h") || str_equal(token, "4h") || str_equal(token, "1d") || str_equal(
        token,
        "1w",
    ) || str_equal(token, "1M")
}

/// The text of a cell, and `"0"` for a cell that is no string.
fn cell_text(cell: &Cell) -> (r: String)
    ensures
        r@ == text_or_zero(cell@),
{
    match &cell.text {
        Some(t) => t.clone(),
        None => String::from_str("0"),
    }
}

/// The bar of one row, or `None` for a row with fewer than six cells.
pub fn kline_from_row(row: &Vec<Cell>) -> (r: Option<KlineText>)
    ensures
        match r {
            Some(k) => row@.len() >= 6 && k@ == kline_of_row(row_view(row@)),
            None => row@.len() < 6,
        },
{
    if row.len() < 6 {
        return None;
    }
    let open_time: i64 = match row[0].int {
        Some(t) => t,
        None => 0,
    };
    Some(
        KlineText {
            open_time,
            open: cell_text(&row[1]),
            high: cell_text(&row[2]),
            low: cell_text(&row[3]),
            close: cell_text(&row[4]),
            volume: cell_text(&row[5]),
        },
    )
}

/// The bars of a table of rows, in the rows' order. A row with fewer than
/// six cells contributes nothing, so the result may be shorter than the table.
pub fn klines_from_rows(rows: &Vec<Vec<Cell>>) -> (out: Vec<KlineText>)
    ensures
        klines_view(out@) == klines_of_rows(rows_view(rows@)),
{
    let mut out: Vec<KlineText> = Vec::new();
    let mut i: usize = 0;
    proof {
        assert(rows_view(rows@).take(0) =~= Seq::<Seq<CellView>>::empty());
        assert(klines_view(out@) =~= Seq::<KlineTextView>::empty());
    }
    while i < rows.len()
        invariant
            i <= rows@.len(),
            klines_view(out@) == klines_of_rows(rows_view(rows@).take(i as int)),
        decreases rows@.len() - i,
    {
        proof {
            let next = rows_view(rows@).take(i + 1);
            assert(next.drop_last() =~= rows_view(rows@).take(i as int));
            assert(next.last() == row_view(rows@[i as int]@));
        }
        match kline_from_row(&rows[i]) {
            Some(k) => {
                proof {
                    assert(klines_view(out@.push(k)) =~= klines_view(out@).push(k@));
                }
                out.push(k);
            },
            None => {},
        }
        i = i + 1;
    }
    proof {
        assert(rows_view(rows@).take(rows@.len() as int) =~= rows_view(rows@));
    }
    out
}

/// The bars of an answer to a candle request. An answer that is no array of
/// arrays is a failure; otherwise every row with at least six cells gives its
/// bar.
pub fn parse_klines(body: &[u8]) -> (r: Result<Vec<KlineText>, MarketError>)
    ensures
        match json_rows(body@) {
            Some(rows) => r is Ok && klines_view(r.unwrap()@) == klines_of_rows(rows),
            None => r == Err::<Vec<KlineText>, MarketError>(MarketError::MalformedBody),
        },
{
    match decode_rows(body) {
        Ok(rows) => Ok(klines_from_rows(&rows)),
        Err(_) => Err(MarketError::MalformedBody),
    }
}

/// The tick of a ticker quote that was observed at `observed_at_ms`. The
/// quote's price arrives as text; `price_bits` is the number that the text
/// spells, or `None` where it spells none, which is a failure.
pub fn ticker_update(ticker: BinanceTickerPrice, price_bits: Option<u64>, observed_at_ms: i64) -> (r:
    Result<PriceUpdate, MarketError>)
    ensures
        match price_bits {
            Some(bits) => r is Ok && r.unwrap().symbol@ == ticker.symbol@ && r.unwrap().price_bits
                == bits && r.unwrap().ts_ms == observed_at_ms,
            None => r == Err::<PriceUpdate, MarketError>(MarketError::InvalidPrice),
        },
{
    match price_bits {
        Some(bits) => Ok(PriceUpdate { symbol: ticker.symbol, price_bits: bits, ts_ms: observed_at_ms }),
        None => Err(MarketError::InvalidPrice),
    }
}

/// Where the upstream is reached.
#[derive(Debug, Clone)]
pub struct BinancePriceService {
    base_url: String,
}

impl BinancePriceService {
    /// The base address of the requests.
    pub closed spec fn base(&self) -> Seq<char> {
        self.base_url@
    }

    /// The service at the upstream's public address.
    pub fn new() -> (s: Self)
        ensures
            s.base() == "https://api.binance.com"@,
    {
        BinancePriceService { base_url: String::from_str("https://api.binance.com") }
    }

    /// The service at another address.
    pub fn with_base_url(base_url: &str) -> (s: Self)
        ensures
            s.base() == base_url@,
    {
        BinancePriceService { base_url: String::from_str(base_url) }
    }

    /// The address of the request for the latest price.
    pub fn ticker_url(&self) -> (url: String)
        ensures
            url@ == ticker_url_of(self.base()),
    {
        let mut url = self.base_url.clone();
        url.append("/api/v3/ticker/price?symbol=BTCUSDT");
        url
    }

    /// The address of the request for the recent candles of `symbol`, with at
    /// most `MAX_KLINE_LIMIT` records asked for. An interval outside the
    /// supported tokens is refused.
    pub fn klines_url(&self, symbol: &str, interval: &str, limit: u16) -> (r: Result<
        String,
        MarketError,
    >)
        ensures
            is_interval(interval@) ==> r is Ok && r.unwrap()@ == klines_url_of(
                self.base(),
                symbol@,
                interval@,
                if limit < MAX_KLINE_LIMIT {
                    limit
                } else {
                    MAX_KLINE_LIMIT
                },
            ),
            !is_interval(interval@) ==> r == Err::<String, MarketError>(
                MarketError::UnsupportedInterval,
            ),
    {
        if !is_interval_token(interval) {
            return Err(MarketError::UnsupportedInterval);
        }
        let capped: u16 = if limit < MAX_KLINE_LIMIT {
            limit
        } else {
            MAX_KLINE_LIMIT
        };
        let mut url = self.base_url.clone();
        url.append("/api/v3/klines?symbol=");
        url.append(symbol);
        url.append("&interval=");
        url.append(interval);
        url.append("&limit=");
        push_decimal(&mut url, capped as u32);
        Ok(url)
    }
}

/// The current time in milliseconds since the Unix epoch.
pub fn chrono_ms_now() -> (r: i64) {
    unix_millis_now()
}

/// A row with fewer than six cells adds nothing to the candles of a table,
/// and makes nothing fail: the table gives what it gave without it.
pub proof fn lemma_short_row_is_skipped(table: Seq<Seq<CellView>>, row: Seq<CellView>)
    requires
        row.len() < 6,
    ensures
        klines_of_rows(table.push(row)) == klines_of_rows(table),
{
    assert(table.push(row).drop_last() =~= table);
}

/// A row with six cells or more adds its candle at the end, whatever its
/// cells hold: a quantity that is no text counts as `"0"` and does not keep
/// the row out.
pub proof fn lemma_full_row_is_kept(table: Seq<Seq<CellView>>, row: Seq<CellView>)
    requires
        row.len() >= 6,
    ensures
        klines_of_rows(table.push(row)) == klines_of_rows(table).push(kline_of_row(row)),
{
    assert(table.push(row).drop_last() =~= table);
}

} // verus!
