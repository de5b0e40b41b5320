use binance_feed::bookticker::{ticker_record, ticker_update, ticker_update_bytes, BookTicker, TickerError};
use binance_feed::decimal::{parse_decimal, Decimal};
use binance_feed::price_cache::{BestPrices, PriceCache};

fn dec(units: u64, scale: usize) -> Decimal {
    Decimal { units, scale }
}

#[test]
fn decimals_read_exactly() {
    assert_eq!(parse_decimal("50000.10"), Some(dec(5000010, 2)));
    assert_eq!(parse_decimal("42"), Some(dec(42, 0)));
    assert_eq!(parse_decimal("0.5"), Some(dec(5, 1)));
    assert_eq!(parse_decimal(".5"), Some(dec(5, 1)));
    assert_eq!(parse_decimal("5."), Some(dec(5, 0)));
    assert_eq!(parse_decimal("18446744073709551615"), Some(dec(u64::MAX, 0)));
}

#[test]
fn malformed_decimals_are_rejected() {
    assert_eq!(parse_decimal(""), None);
    assert_eq!(parse_decimal("."), None);
    assert_eq!(parse_decimal("abc"), None);
    assert_eq!(parse_decimal("1.2.3"), None);
    assert_eq!(parse_decimal("-1"), None);
    assert_eq!(parse_decimal("18446744073709551616"), None);
}

#[test]
fn last_write_wins() {
    let mut cache = PriceCache::new();
    let first = BestPrices { bid: dec(500001, 1), ask: dec(500002, 1) };
    let second = BestPrices { bid: dec(500100, 1), ask: dec(500105, 1) };
    cache.upsert("BTCUSDT".to_string(), first);
    cache.upsert("BTCUSDT".to_string(), second);
    assert_eq!(cache.get(&"BTCUSDT".to_string()), Some(second));
    let snap = cache.snapshot();
    assert_eq!(snap, vec![("BTCUSDT".to_string(), second)]);
}

#[test]
fn symbols_are_kept_apart() {
    let mut cache = PriceCache::new();
    let a = BestPrices { bid: dec(1, 0), ask: dec(2, 0) };
    let b = BestPrices { bid: dec(3, 0), ask: dec(4, 0) };
    cache.upsert("BTCUSDT".to_string(), a);
    cache.upsert("ETHUSDT".to_string(), b);
    assert_eq!(cache.get(&"BTCUSDT".to_string()), Some(a));
    assert_eq!(cache.get(&"ETHUSDT".to_string()), Some(b));
    assert_eq!(cache.get(&"BNBUSDT".to_string()), None);
    let mut snap = cache.snapshot();
    snap.sort_by(|x, y| x.0.cmp(&y.0));
    assert_eq!(snap, vec![("BTCUSDT".to_string(), a), ("ETHUSDT".to_string(), b)]);
}

#[test]
fn empty_cache_has_empty_snapshot() {
    assert!(PriceCache::new().snapshot().is_empty());
}

const FRAME: &str = r#"{"stream":"btcusdt@bookTicker","data":{"e":"bookTicker","u":400900217,"s":"BTCUSDT","b":"50010.0","B":"31.21","a":"50010.5","A":"40.66","T":1591097736593,"E":1591097736593}}"#;

#[test]
fn ticker_frame_gives_an_update() {
    let (symbol, prices) = ticker_update(FRAME).unwrap();
    assert_eq!(symbol, "BTCUSDT");
    assert_eq!(prices, BestPrices { bid: dec(500100, 1), ask: dec(500105, 1) });
}

#[test]
fn binary_ticker_frame_gives_an_update() {
    let (symbol, prices) = ticker_update_bytes(FRAME.as_bytes()).unwrap();
    assert_eq!(symbol, "BTCUSDT");
    assert_eq!(prices.ask, dec(500105, 1));
}

#[test]
fn ticker_frame_errors() {
    assert_eq!(ticker_update("not json"), Err(TickerError::NotJson));
    assert_eq!(ticker_update(r#"{"stream":"x"}"#), Err(TickerError::Malformed));
    let bad = FRAME.replace("\"50010.0\"", "\"fifty\"");
    assert_eq!(ticker_update(&bad), Err(TickerError::BadPrice));
    let wrong_type = FRAME.replace("400900217", "\"400900217\"");
    assert_eq!(ticker_update(&wrong_type), Err(TickerError::Malformed));
}

#[test]
fn ticker_record_keys() {
    let t = BookTicker {
        event: "bookTicker".to_string(),
        update_id: 1,
        symbol: "BTCUSDT".to_string(),
        best_bid: "1.5".to_string(),
        bid_qty: "2".to_string(),
        best_ask: "1.6".to_string(),
        ask_qty: "3".to_string(),
        trans_time: 5,
        event_time: 1591097736593,
    };
    let r = ticker_record(&t);
    assert_eq!(r.pk, "BTCUSDT#bookTicker");
    assert_eq!(r.sk, "1591097736593");
    assert_eq!(r.symbol, "BTCUSDT");
    assert_eq!(r.best_bid, "1.5");
    assert_eq!(r.bid_qty, "2");
    assert_eq!(r.best_ask, "1.6");
    assert_eq!(r.ask_qty, "3");
}
