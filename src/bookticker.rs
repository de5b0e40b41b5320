//! Book-ticker frames of the multiplexed market stream: reading one into the
//! symbol and its prices, and the flat record a ticker event is stored as.

use vstd::prelude::*;
use crate::decimal::{decimal_of, parse_decimal};
use crate::json::{
    Json, json_of_bytes, json_of_text, member, str_member, u64_member, get_member, get_str, get_u64,
    parse_json, parse_json_bytes,
};
use crate::price_cache::BestPrices;
use crate::text::concat;

verus! {

/// One frame of the multiplexed stream: the stream name and its payload.
#[derive(Debug, Clone, PartialEq, Eq)]
#[allow(non_snake_case)]
pub struct StreamBookTicker {
    pub stream: String,
    pub data: BookTicker,
}

/// Does `j` read as `v`?
pub open spec fn decodes_stream_book_ticker(j: Json, v: StreamBookTicker) -> bool {
    &&& str_member(j, "stream"@) == Some(v.stream@)
    &&& match member(j, "data"@) { Some(m) => decodes_book_ticker(m, v.data), None => false }
}

/// Reads a `StreamBookTicker` from `j`.
pub fn decode_stream_book_ticker(j: &Json) -> (r: Option<StreamBookTicker>)
    ensures
        match r {
            Some(v) => decodes_stream_book_ticker(*j, v),
            None => forall|v: StreamBookTicker| !#[trigger] decodes_stream_book_ticker(*j, v),
        },
{
    let stream = match get_str(j, "stream") {
        Some(x) => x,
        None => return None,
    };
    let data = match get_member(j, "data") {
        Some(m) => match decode_book_ticker(m) {
            Some(x) => x,
            None => return None,
        },
        None => return None,
    };
    Some(StreamBookTicker {
        stream,
        data,
    })
}

/// The best bid and ask of one symbol at one moment.
#[derive(Debug, Clone, PartialEq, Eq)]
#[allow(non_snake_case)]
pub struct BookTicker {
    pub event: String,
    pub update_id: u64,
    pub symbol: String,
    pub best_bid: String,
    pub bid_qty: String,
    pub best_ask: String,
    pub ask_qty: String,
    pub trans_time: u64,
    pub event_time: u64,
}

/// Does `j` read as `v`?
pub open spec fn decodes_book_ticker(j: Json, v: BookTicker) -> bool {
    &&& str_member(j, "e"@) == Some(v.event@)
    &&& u64_member(j, "u"@) == Some(v.update_id)
    &&& str_member(j, "s"@) == Some(v.symbol@)
    &&& str_member(j, "b"@) == Some(v.best_bid@)
    &&& str_member(j, "B"@) == Some(v.bid_qty@)
    &&& str_member(j, "a"@) == Some(v.best_ask@)
    &&& str_member(j, "A"@) == Some(v.ask_qty@)
    &&& u64_member(j, "T"@) == Some(v.trans_time)
    &&& u64_member(j, "E"@) == Some(v.event_time)
}

/// Reads a `BookTicker` from `j`.
pub fn decode_book_ticker(j: &Json) -> (r: Option<BookTicker>)
    ensures
        match r {
            Some(v) => decodes_book_ticker(*j, v),
            None => forall|v: BookTicker| !#[trigger] decodes_book_ticker(*j, v),
        },
{
    let event = match get_str(j, "e") {
        Some(x) => x,
        None => return None,
    };
    let update_id = match get_u64(j, "u") {
        Some(x) => x,
        None => return None,
    };
    let symbol = match get_str(j, "s") {
        Some(x) => x,
        None => return None,
    };
    let best_bid = match get_str(j, "b") {
        Some(x) => x,
        None => return None,
    };
    let bid_qty = match get_str(j, "B") {
        Some(x) => x,
        None => return None,
    };
    let best_ask = match get_str(j, "a") {
        Some(x) => x,
        None => return None,
    };
    let ask_qty = match get_str(j, "A") {
        Some(x) => x,
        None => return None,
    };
    let trans_time = match get_u64(j, "T") {
        Some(x) => x,
        None => return None,
    };
    let event_time = match get_u64(j, "E") {
        Some(x) => x,
        None => return None,
    };
    Some(BookTicker {
        event,
        update_id,
        symbol,
        best_bid,
        bid_qty,
        best_ask,
        ask_qty,
        trans_time,
        event_time,
    })
}

/// Why a market frame gave no price update. Each is confined to its frame.
#[derive(Debug, Clone, Copy, PartialEq, Eq)]
pub enum TickerError {
    /// The frame is not JSON.
    NotJson,
    /// The frame is JSON but not a book-ticker frame.
    Malformed,
    /// The bid or the ask is not a decimal number.
    BadPrice,
}

/// The prices that a ticker quotes, if both read as decimals.
pub open spec fn prices_of(t: BookTicker) -> Option<BestPrices> {
    match (decimal_of(t.best_bid@), decimal_of(t.best_ask@)) {
        (Some(bid), Some(ask)) => Some(BestPrices { bid, ask }),
        _ => None,
    }
}

/// What a decoded JSON tree gives as a price update.
pub open spec fn ticker_update_of(j: Json, r: Result<(String, BestPrices), TickerError>) -> bool {
    match r {
        Ok(u) => exists|t: StreamBookTicker| #[trigger] decodes_stream_book_ticker(j, t)
            && u.0@ == t.data.symbol@ && prices_of(t.data) == Some(u.1),
        Err(TickerError::Malformed) => forall|t: StreamBookTicker| !#[trigger] decodes_stream_book_ticker(j, t),
        Err(TickerError::BadPrice) => exists|t: StreamBookTicker| #[trigger] decodes_stream_book_ticker(j, t)
            && prices_of(t.data) is None,
        Err(TickerError::NotJson) => false,
    }
}

/// The symbol of `t` and its prices, read as decimals.
pub fn ticker_prices(t: &BookTicker) -> (r: Result<(String, BestPrices), TickerError>)
    ensures
        match prices_of(*t) {
            Some(p) => r is Ok && r->Ok_0.0@ == t.symbol@ && r->Ok_0.1 == p,
            None => r == Err::<(String, BestPrices), TickerError>(TickerError::BadPrice),
        },
{
    let bid = parse_decimal(t.best_bid.as_str());
    let ask = parse_decimal(t.best_ask.as_str());
    match (bid, ask) {
        (Some(bid), Some(ask)) => Ok((t.symbol.clone(), BestPrices { bid, ask })),
        _ => Err(TickerError::BadPrice),
    }
}

/// The price update that a decoded frame carries.
pub fn ticker_update_json(j: &Json) -> (r: Result<(String, BestPrices), TickerError>)
    ensures
        ticker_update_of(*j, r),
{
    match decode_stream_book_ticker(j) {
        None => Err(TickerError::Malformed),
        Some(t) => {
            let r = ticker_prices(&t.data);
            assert(decodes_stream_book_ticker(*j, t));
            r
        },
    }
}

/// The price update that a text frame carries.
pub fn ticker_update(text: &str) -> (r: Result<(String, BestPrices), TickerError>)
    ensures
        match json_of_text(text@) {
            None => r == Err::<(String, BestPrices), TickerError>(TickerError::NotJson),
            Some(j) => ticker_update_of(j, r),
        },
{
    match parse_json(text) {
        None => Err(TickerError::NotJson),
        Some(j) => ticker_update_json(&j),
    }
}

/// The price update that a binary frame carries.
pub fn ticker_update_bytes(bytes: &[u8]) -> (r: Result<(String, BestPrices), TickerError>)
    ensures
        match json_of_bytes(bytes@) {
            None => r == Err::<(String, BestPrices), TickerError>(TickerError::NotJson),
            Some(j) => ticker_update_of(j, r),
        },
{
    match parse_json_bytes(bytes) {
        None => Err(TickerError::NotJson),
        Some(j) => ticker_update_json(&j),
    }
}

pub open spec fn digit_char(d: nat) -> char {
    if d == 0 { '0' } else if d == 1 { '1' } else if d == 2 { '2' } else if d == 3 { '3' }
    else if d == 4 { '4' } else if d == 5 { '5' } else if d == 6 { '6' } else if d == 7 { '7' }
    else if d == 8 { '8' } else { '9' }
}

/// The decimal digits of `n`, without leading zeros.
pub open spec fn decimal_text(n: nat) -> Seq<char>
    decreases n,
{
    if n < 10 {
        seq![digit_char(n)]
    } else {
        decimal_text(n / 10).push(digit_char(n % 10))
    }
}

/// Relies on `u64::to_string`: an integer is written in decimal digits.
#[verifier::external_body]
fn u64_text(n: u64) -> (r: String)
    ensures
        r@ == decimal_text(n as nat),
{
    n.to_string()
}

/// A ticker event as the key-value store keeps it: keyed by
/// `<symbol>#<event type>` and the event time.
#[derive(Debug, Clone, PartialEq, Eq)]
pub struct TickerRecord {
    pub pk: String,
    pub sk: String,
    pub symbol: String,
    pub best_bid: String,
    pub bid_qty: String,
    pub best_ask: String,
    pub ask_qty: String,
}

/// The record that stores `item`.
pub fn ticker_record(item: &BookTicker) -> (r: TickerRecord)
    ensures
        r.pk@ == item.symbol@ + "#"@ + item.event@,
        r.sk@ == decimal_text(item.event_time as nat),
        r.symbol@ == item.symbol@,
        r.best_bid@ == item.best_bid@,
        r.bid_qty@ == item.bid_qty@,
        r.best_ask@ == item.best_ask@,
        r.ask_qty@ == item.ask_qty@,
{
    let head = concat(item.symbol.as_str(), "#");
    let pk = concat(head.as_str(), item.event.as_str());
    TickerRecord {
        pk,
        sk: u64_text(item.event_time),
        symbol: item.symbol.clone(),
        best_bid: item.best_bid.clone(),
        bid_qty: item.bid_qty.clone(),
        best_ask: item.best_ask.clone(),
        ask_qty: item.ask_qty.clone(),
    }
}

} // verus!
