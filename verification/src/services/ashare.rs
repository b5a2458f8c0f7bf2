//! The A-share upstream: identifiers, request addresses and candle records.

use crate::calendar::{
    local_millis, naive_date_of, naive_datetime_of, naive_seconds_of, parse_naive_date,
    parse_naive_datetime, within_zone_of, WallClock,
};
use crate::clock::unix_millis_now;
use crate::error::MarketError;
use crate::models::kline::{KlineText, KlineTextView};
use crate::models::price::PriceUpdate;
use crate::text::{
    count_sep, decimal, is_suffix, lemma_split_on_is_exact, push_decimal, split_fields, split_on,
    str_equal, strip_suffix, views,
};
use vstd::prelude::*;
use vstd::string::StringExecFns;

verus! {

/// The most records that one candle request asks for.
pub const MAX_KLINE_LIMIT: u16 = 500;

/// The upstream's identifier of a symbol: the market's number, a dot, and the
/// code that stands before the market's suffix. Shanghai (`.SH`) is market 1,
/// Shenzhen (`.SZ`) market 0; any other symbol has no identifier.
pub open spec fn secid_of(symbol: Seq<char>) -> Option<Seq<char>> {
    if is_suffix(symbol, ".SH"@) {
        Some("1."@ + symbol.take(symbol.len() - ".SH"@.len()))
    } else if is_suffix(symbol, ".SZ"@) {
        Some("0."@ + symbol.take(symbol.len() - ".SZ"@.len()))
    } else {
        None
    }
}

/// The upstream's code of an interval token.
pub open spec fn klt_of(interval: Seq<char>) -> Option<u32> {
    if interval == "1m"@ {
        Some(101u32)
    } else if interval == "5m"@ {
        Some(102u32)
    } else if interval == "15m"@ {
        Some(103u32)
    } else if interval == "30m"@ {
        Some(104u32)
    } else if interval == "1h"@ {
        Some(105u32)
    } else if interval == "1d"@ {
        Some(106u32)
    } else if interval == "1w"@ {
        Some(107u32)
    } else if interval == "1M"@ {
        Some(108u32)
    } else {
        None
    }
}

/// The address of a candle request.
pub open spec fn kline_url_of(secid: Seq<char>, klt: u32, limit: u16) -> Seq<char> {
    "https://push2his.eastmoney.com/api/qt/stock/kline/get?secid="@ + secid + "&klt="@ + decimal(
        klt as nat,
    ) + "&fqt=1&end=20500101&lmt="@ + decimal(limit as nat)
        + "&fields1=f1,f2,f3,f4,f5&fields2=f51,f52,f53,f54,f55,f56,f57,f58"@
}

/// The address of a request for the latest price.
pub open spec fn quote_url_of(secid: Seq<char>) -> Seq<char> {
    "https://push2.eastmoney.com/api/qt/stock/get?secid="@ + secid + "&fields=f43"@
}

/// What a candle request asks the upstream, or why none can be made: the
/// symbol is looked at first, then the interval, and the limit is capped.
pub open spec fn kline_request_of(symbol: Seq<char>, interval: Seq<char>, limit: u16) -> Result<
    Seq<char>,
    MarketError,
> {
    match secid_of(symbol) {
        None => Err(MarketError::UnsupportedSymbol),
        Some(secid) => match klt_of(interval) {
            None => Err(MarketError::UnsupportedInterval),
            Some(klt) => Ok(
                kline_url_of(secid, klt, if limit < MAX_KLINE_LIMIT {
                    limit
                } else {
                    MAX_KLINE_LIMIT
                }),
            ),
        },
    }
}

/// The current time in milliseconds since the Unix epoch.
pub fn now_ms() -> (r: i64) {
    unix_millis_now()
}

/// Maps a symbol to the upstream's identifier.
pub fn to_secid(symbol: &str) -> (r: Option<String>)
    ensures
        match r {
            Some(id) => secid_of(symbol@) == Some(id@),
            None => secid_of(symbol@) is None,
        },
{
    match strip_suffix(symbol, ".SH") {
        Some(code) => {
            let mut id = String::from_str("1.");
            id.append(code);
            Some(id)
        },
        None => match strip_suffix(symbol, ".SZ") {
            Some(code) => {
                let mut id = String::from_str("0.");
                id.append(code);
                Some(id)
            },
            None => None,
        },
    }
}

/// Maps an interval token to the upstream's code. A token outside the
/// supported set is refused; there is no default.
pub fn to_klt(interval: &str) -> (r: Result<u32, MarketError>)
    ensures
        match r {
            Ok(code) => klt_of(interval@) == Some(code),
            Err(e) => klt_of(interval@) is None && e == MarketError::UnsupportedInterval,
        },
{
    if str_equal(interval, "1m") {
        Ok(101)
    } else if str_equal(interval, "5m") {
        Ok(102)
    } else if str_equal(interval, "15m") {
        Ok(103)
    } else if str_equal(interval, "30m") {
        Ok(104)
    } else if str_equal(interval, "1h") {
        Ok(105)
    } else if str_equal(interval, "1d") {
        Ok(106)
    } else if str_equal(interval, "1w") {
        Ok(107)
    } else if str_equal(interval, "1M") {
        Ok(108)
    } else {
        Err(MarketError::UnsupportedInterval)
    }
}

/// The address that a candle request for `symbol` and `interval` goes to, with
/// at most `MAX_KLINE_LIMIT` records asked for.
pub fn kline_request_url(symbol: &str, interval: &str, limit: u16) -> (r: Result<
    String,
    MarketError,
>)
    ensures
        match r {
            Ok(url) => kline_request_of(symbol@, interval@, limit) == Ok::<Seq<char>, MarketError>(
                url@,
            ),
            Err(e) => kline_request_of(symbol@, interval@, limit) == Err::<Seq<char>, MarketError>(
                e,
            ),
        },
{
    let secid = match to_secid(symbol) {
        Some(id) => id,
        None => {
            return Err(MarketError::UnsupportedSymbol);
        },
    };
    let klt: u32 = match to_klt(interval) {
        Ok(code) => code,
        Err(e) => {
            return Err(e);
        },
    };
    let capped: u16 = if limit < MAX_KLINE_LIMIT {
        limit
    } else {
        MAX_KLINE_LIMIT
    };
    let mut url = String::from_str("https://push2his.eastmoney.com/api/qt/stock/kline/get?secid=");
    url.append(secid.as_str());
    url.append("&klt=");
    push_decimal(&mut url, klt);
    url.append("&fqt=1&end=20500101&lmt=");
    push_decimal(&mut url, capped as u32);
    url.append("&fields1=f1,f2,f3,f4,f5&fields2=f51,f52,f53,f54,f55,f56,f57,f58");
    Ok(url)
}

/// The address that a request for the latest price of `symbol` goes to.
pub fn quote_request_url(symbol: &str) -> (r: Result<String, MarketError>)
    ensures
        match r {
            Ok(url) => secid_of(symbol@) is Some && url@ == quote_url_of(secid_of(symbol@).unwrap()),
            Err(e) => secid_of(symbol@) is None && e == MarketError::UnsupportedSymbol,
        },
{
    match to_secid(symbol) {
        Some(secid) => {
            let mut url = String::from_str("https://push2.eastmoney.com/api/qt/stock/get?secid=");
            url.append(secid.as_str());
            url.append("&fields=f43");
            Ok(url)
        },
        None => Err(MarketError::UnsupportedSymbol),
    }
}

/// The tick for a quote of `symbol` that was observed at `observed_at_ms`.
/// `price_bits` is the price that the answer's data holds, or `None` for an
/// answer without data, which is a failure.
pub fn quote_update(symbol: &str, price_bits: Option<u64>, observed_at_ms: i64) -> (r: Result<
    PriceUpdate,
    MarketError,
>)
    ensures
        match price_bits {
            Some(bits) => r is Ok && r.unwrap().symbol@ == symbol@ && r.unwrap().price_bits == bits
                && r.unwrap().ts_ms == observed_at_ms,
            None => r == Err::<PriceUpdate, MarketError>(MarketError::EmptyQuoteData),
        },
{
    match price_bits {
        Some(bits) => Ok(
            PriceUpdate { symbol: String::from_str(symbol), price_bits: bits, ts_ms: observed_at_ms },
        ),
        None => Err(MarketError::EmptyQuoteData),
    }
}

/// The hour of the day that a record dated by its day alone is placed at: the
/// close of the market.
pub const DAY_RECORD_HOUR: u32 = 15;

/// The date and time of day that a record's time field names. A field with a
/// date and a time down to the minute is taken as it stands; a field with a
/// date alone is placed at `DAY_RECORD_HOUR` o'clock, so that the candles of
/// successive days stay in order; any other field names nothing.
pub open spec fn em_wall_clock_of(field: Seq<char>) -> Option<WallClock> {
    match naive_datetime_of(field, "%Y-%m-%d %H:%M"@) {
        Some(w) => Some(w),
        None => match naive_date_of(field, "%Y-%m-%d"@) {
            Some(d) => Some(
                WallClock {
                    year: d.year,
                    month: d.month,
                    day: d.day,
                    hour: DAY_RECORD_HOUR,
                    minute: 0,
                    second: 0,
                },
            ),
            None => None,
        },
    }
}

/// The opening time for a local time that the machine's time zone has exactly
/// once, and the epoch itself for one that it has twice or not at all.
pub open spec fn open_time_of(local: Option<i64>) -> i64 {
    match local {
        Some(ms) => ms,
        None => 0,
    }
}

/// Whether `t` can be the opening time, in milliseconds since the Unix epoch,
/// of a record with this time field. A field that names a date and time opens
/// at the instant that a time zone gives to it, or at the epoch where the
/// zone has that local time twice or not at all. A field that names none
/// opens at the epoch. So the opening time depends on the field and the time
/// zone alone, and fields that lie two days apart or more open in their
/// order.
pub open spec fn opens_at(t: i64, field: Seq<char>) -> bool {
    match em_wall_clock_of(field) {
        Some(w) => t == 0 || within_zone_of(t, w),
        None => t == 0,
    }
}

/// The fields of a record, where it has the six that a candle needs.
pub open spec fn record_fields(record: Seq<char>) -> Option<Seq<Seq<char>>> {
    let parts = split_on(record, ',');
    if parts.len() >= 6 {
        Some(parts)
    } else {
        None
    }
}

/// The field lists of the records that have at least six fields, in the order
/// of the records.
pub open spec fn kept_records(records: Seq<Seq<char>>) -> Seq<Seq<Seq<char>>>
    decreases records.len(),
{
    if records.len() == 0 {
        Seq::empty()
    } else {
        let before = kept_records(records.drop_last());
        match record_fields(records.last()) {
            Some(parts) => before.push(parts),
            None => before,
        }
    }
}

/// The bar holds what a record's fields say: first the time, which gives
/// the opening time, then open, close, high, low and volume, in that order.
pub open spec fn kline_carries(k: KlineTextView, parts: Seq<Seq<char>>) -> bool {
    &&& opens_at(k.open_time, parts[0])
    &&& k.open == parts[1]
    &&& k.close == parts[2]
    &&& k.high == parts[3]
    &&& k.low == parts[4]
    &&& k.volume == parts[5]
}

/// Reads the date and time of day from a record's time field.
pub fn em_wall_clock(field: &str) -> (r: Option<WallClock>)
    ensures
        r == em_wall_clock_of(field@),
{
    match parse_naive_datetime(field, "%Y-%m-%d %H:%M") {
        Some(w) => Some(w),
        None => match parse_naive_date(field, "%Y-%m-%d") {
            Some(d) => Some(
                WallClock {
                    year: d.year,
                    month: d.month,
                    day: d.day,
                    hour: DAY_RECORD_HOUR,
                    minute: 0,
                    second: 0,
                },
            ),
            None => None,
        },
    }
}

/// The opening time in milliseconds for what the time zone made of a local
/// time.
pub fn open_time_from_local(local: Option<i64>) -> (r: i64)
    ensures
        r == open_time_of(local),
{
    match local {
        Some(ms) => ms,
        None => 0,
    }
}

/// The opening time of a record in milliseconds since the Unix epoch: its
/// time field read in the machine's time zone, and the epoch where the field
/// names no date or the zone gives no single instant.
pub fn parse_em_time(field: &str) -> (r: i64)
    ensures
        opens_at(r, field@),
{
    match em_wall_clock(field) {
        Some(w) => open_time_from_local(local_millis(w)),
        None => 0,
    }
}

/// The bar of one record, or `None` for a record with fewer than six fields.
/// A quantity that is no number is carried as it stands: it never makes the
/// record fail.
pub fn kline_from_record(record: &str) -> (r: Option<KlineText>)
    ensures
        match r {
            Some(k) => record_fields(record@) is Some && kline_carries(
                k@,
                record_fields(record@).unwrap(),
            ),
            None => record_fields(record@) is None,
        },
{
    let parts = split_fields(record, ',');
    if parts.len() < 6 {
        return None;
    }
    proof {
        let v = views(parts@);
        assert(v[0] == parts@[0]@);
        assert(v[1] == parts@[1]@);
        assert(v[2] == parts@[2]@);
        assert(v[3] == parts@[3]@);
        assert(v[4] == parts@[4]@);
        assert(v[5] == parts@[5]@);
    }
    let open_time: i64 = parse_em_time(parts[0].as_str());
    Some(
        KlineText {
            open_time,
            open: parts[1].clone(),
            high: parts[3].clone(),
            low: parts[4].clone(),
            close: parts[2].clone(),
            volume: parts[5].clone(),
        },
    )
}

/// The bars of a batch of records, in the records' order. A record with
/// fewer than six fields contributes nothing, so the result may be shorter
/// than the batch.
pub fn klines_from_records(records: &Vec<String>) -> (out: Vec<KlineText>)
    ensures
        out@.len() == kept_records(views(records@)).len(),
        forall|i: int|
            0 <= i < out@.len() ==> kline_carries(
                #[trigger] out@[i]@,
                kept_records(views(records@))[i],
            ),
{
    let mut out: Vec<KlineText> = Vec::new();
    let mut i: usize = 0;
    proof {
        assert(views(records@).take(0) =~= Seq::<Seq<char>>::empty());
    }
    while i < records.len()
        invariant
            i <= records@.len(),
            out@.len() == kept_records(views(records@).take(i as int)).len(),
            forall|j: int|
                0 <= j < out@.len() ==> kline_carries(
                    #[trigger] out@[j]@,
                    kept_records(views(records@).take(i as int))[j],
                ),
        decreases records@.len() - i,
    {
        proof {
            let next = views(records@).take(i + 1);
            assert(next.drop_last() =~= views(records@).take(i as int));
            assert(next.last() == records@[i as int]@);
        }
        match kline_from_record(records[i].as_str()) {
            Some(k) => {
                out.push(k);
            },
            None => {},
        }
        i = i + 1;
    }
    proof {
        assert(views(records@).take(records@.len() as int) =~= views(records@));
    }
    out
}

/// The bars of an answer's data. An answer without data is a failure; one
/// with data gives the bars of its records.
pub fn klines_from_em_data(data: Option<Vec<String>>) -> (r: Result<Vec<KlineText>, MarketError>)
    ensures
        data is None ==> r == Err::<Vec<KlineText>, MarketError>(MarketError::EmptyKlineData),
        data is Some ==> r is Ok && r.unwrap()@.len() == kept_records(
            views(data.unwrap()@),
        ).len() && forall|i: int|
            0 <= i < r.unwrap()@.len() ==> kline_carries(
                #[trigger] r.unwrap()@[i]@,
                kept_records(views(data.unwrap()@))[i],
            ),
{
    match data {
        Some(records) => Ok(klines_from_records(&records)),
        None => Err(MarketError::EmptyKlineData),
    }
}

/// A record with fewer than six fields adds nothing to the candles of a
/// batch, and makes nothing fail: the batch gives what it gave without it.
pub proof fn lemma_short_record_is_skipped(batch: Seq<Seq<char>>, record: Seq<char>)
    requires
        split_on(record, ',').len() < 6,
    ensures
        kept_records(batch.push(record)) == kept_records(batch),
{
    assert(batch.push(record).drop_last() =~= batch);
}

/// A record with six fields or more adds its candle at the end, whatever its
/// fields hold: a quantity that is no number does not keep the record out.
pub proof fn lemma_full_record_is_kept(batch: Seq<Seq<char>>, record: Seq<char>)
    requires
        split_on(record, ',').len() >= 6,
    ensures
        kept_records(batch.push(record)) == kept_records(batch).push(split_on(record, ',')),
{
    assert(batch.push(record).drop_last() =~= batch);
}

/// A record has the six fields of a candle exactly when it holds five commas
/// or more.
pub proof fn lemma_record_needs_five_commas(record: Seq<char>)
    ensures
        record_fields(record) is Some <==> count_sep(record, ',') >= 5,
{
    lemma_split_on_is_exact(record, ',');
}

/// No two interval tokens share a code: tokens with the same code are the
/// same token.
pub proof fn lemma_klt_tells_intervals_apart(a: Seq<char>, b: Seq<char>)
    requires
        klt_of(a) is Some,
        klt_of(a) == klt_of(b),
    ensures
        a == b,
{
}

/// Records stay in the order of their time fields: where the later field
/// names a local time two days or more after the earlier one's, and the time
/// zone gave each a single instant, the earlier record opens first.
pub proof fn lemma_opening_times_keep_order(
    earlier: i64,
    first: Seq<char>,
    later: i64,
    second: Seq<char>,
)
    requires
        opens_at(earlier, first),
        opens_at(later, second),
        em_wall_clock_of(first) is Some,
        em_wall_clock_of(second) is Some,
        earlier != 0,
        later != 0,
        naive_seconds_of(em_wall_clock_of(first).unwrap()) + 2 * 86400 <= naive_seconds_of(
            em_wall_clock_of(second).unwrap(),
        ),
    ensures
        earlier < later,
{
}

/// A time field that names no date opens at the epoch, whenever it is read:
/// the opening time takes nothing from the clock.
pub proof fn lemma_unreadable_time_opens_at_the_epoch(t: i64, field: Seq<char>)
    requires
        opens_at(t, field),
        em_wall_clock_of(field) is None,
    ensures
        t == 0,
{
}

} // verus!
