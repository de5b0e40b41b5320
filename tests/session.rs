use binance_feed::json::Json;
use binance_feed::rest::handle_response;
use binance_feed::models::available_coins;
use binance_feed::rest::CustomError;
use binance_feed::session::{
    exchange_info_from_response, listen_key_from_response, renewal_from_response, RenewalTimer, Session,
};

#[test]
fn issuing_reads_the_token() {
    let s = Session::issue(200, r#"{"listenKey":"pqia91ma19a5s61cv6a81va65sdf"}"#, 1000).unwrap();
    assert_eq!(s, Session { token: "pqia91ma19a5s61cv6a81va65sdf".to_string(), issued_at: 1000 });
    assert_eq!(Session::issue(401, "", 1000), Err(CustomError::Unauthorized));
    assert_eq!(Session::issue(200, r#"{"other":"x"}"#, 1000), Err(CustomError::Decode));
}

#[test]
fn listen_key_and_renewal_outcomes() {
    assert_eq!(listen_key_from_response(200, r#"{"listenKey":"abc"}"#), Ok("abc".to_string()));
    assert_eq!(listen_key_from_response(503, ""), Err(CustomError::ServiceUnavailable));
    assert_eq!(renewal_from_response(200, r#"{"listenKey":"abc"}"#), Ok(()));
    assert_eq!(renewal_from_response(200, "{}"), Err(CustomError::Decode));
    assert_eq!(renewal_from_response(500, ""), Err(CustomError::InternalServerError));
}

const INFO: &str = r#"{"exchangeFilters":[],"rateLimits":[{"interval":"MINUTE","intervalNum":1,"limit":2400,"rateLimitType":"REQUEST_WEIGHT"}],"serverTime":1565613908500,"assets":[{"asset":"BUSD","marginAvailable":true,"autoAssetExchange":"0"}],"symbols":[
{"symbol":"BLZUSDT","pair":"BLZUSDT","contractType":"PERPETUAL","deliveryDate":4133404800000,"onboardDate":1598252400000,"status":"TRADING","maintMarginPercent":"2.5000","requiredMarginPercent":"5.0000","baseAsset":"BLZ","quoteAsset":"USDT","marginAsset":"USDT","pricePrecision":5,"quantityPrecision":0,"baseAssetPrecision":8,"quotePrecision":8,"underlyingType":"COIN","underlyingSubType":["STORAGE"],"settlePlan":0,"triggerProtect":"0.15","filters":[{"filterType":"PRICE_FILTER","maxPrice":"300","minPrice":"0.0001","tickSize":"0.0001"},{"filterType":"LOT_SIZE","maxQty":"10000000","minQty":"1","stepSize":"1"},{"filterType":"MAX_NUM_ORDERS","limit":200},{"filterType":"MIN_NOTIONAL","notional":"5.0"},{"filterType":"PERCENT_PRICE","multiplierUp":"1.1500","multiplierDown":"0.8500","multiplierDecimal":"4"}],"orderTypes":["LIMIT","MARKET"],"timeInForce":["GTC","IOC"],"liquidationFee":"0.010000","marketTakeBound":"0.30"},
{"symbol":"BTCUSDT_240329","pair":"BTCUSDT","contractType":"CURRENT_QUARTER","deliveryDate":1711699200000,"onboardDate":1695974400000,"status":"TRADING","maintMarginPercent":"2.5000","requiredMarginPercent":"5.0000","baseAsset":"BTC","quoteAsset":"USDT","marginAsset":"USDT","pricePrecision":1,"quantityPrecision":3,"baseAssetPrecision":8,"quotePrecision":8,"underlyingType":"COIN","underlyingSubType":[],"triggerProtect":"0.05","filters":[],"orderTypes":["LIMIT"],"timeInForce":["GTC"],"liquidationFee":"0.0125","marketTakeBound":"0.05"},
{"symbol":"ETHUSDT","pair":"ETHUSDT","contractType":"PERPETUAL","deliveryDate":4133404800000,"onboardDate":1569398400000,"status":"TRADING","maintMarginPercent":"2.5000","requiredMarginPercent":"5.0000","baseAsset":"ETH","quoteAsset":"USDT","marginAsset":"USDT","pricePrecision":2,"quantityPrecision":3,"baseAssetPrecision":8,"quotePrecision":8,"underlyingType":"COIN","underlyingSubType":["Layer-1"],"settlePlan":null,"triggerProtect":"0.05","filters":[{"filterType":"MARKET_LOT_SIZE","maxQty":"2000","minQty":"0.001","stepSize":"0.001"},{"filterType":"MAX_NUM_ALGO_ORDERS","limit":10}],"orderTypes":["LIMIT"],"timeInForce":["GTC"],"liquidationFee":"0.0125","marketTakeBound":"0.05"}
],"timezone":"UTC"}"#;

#[test]
fn perpetual_contracts_are_picked() {
    let info = exchange_info_from_response(200, INFO).unwrap();
    assert_eq!(info.symbols.len(), 3);
    assert_eq!(info.symbols[0].settlePlan, Some(0));
    assert_eq!(info.symbols[2].settlePlan, None);
    assert_eq!(info.symbols[0].filters.len(), 5);
    assert_eq!(available_coins(&info), vec!["BLZUSDT".to_string(), "ETHUSDT".to_string()]);
}

#[test]
fn unknown_filter_type_fails_the_metadata() {
    let bad = INFO.replace("MAX_NUM_ALGO_ORDERS", "SOMETHING_ELSE");
    assert_eq!(exchange_info_from_response(200, &bad).unwrap_err(), CustomError::Decode);
}

#[test]
fn renewal_fires_once_per_interval() {
    let mut t = RenewalTimer::new(1800, 0);
    assert!(!t.poll(0));
    assert!(!t.poll(1799));
    assert!(t.poll(1800));
    assert!(!t.poll(1800));
    assert!(!t.poll(3599));
    assert!(t.poll(3600));
    assert_eq!(t.next_due, 5400);
}

#[test]
fn renewal_timer_saturates() {
    let t = RenewalTimer::new(10, u64::MAX - 3);
    assert_eq!(t.next_due, u64::MAX);
}

#[test]
fn json_numbers_keep_their_kind() {
    match handle_response(200, r#"[1, -2, 2.5, "x", true, null]"#) {
        Ok(Json::Array(items)) => {
            assert!(matches!(items[0], Json::UInt(1)));
            assert!(matches!(items[1], Json::Int(-2)));
            assert!(matches!(&items[2], Json::Real(s) if s == "2.5"));
            assert!(matches!(&items[3], Json::Str(s) if s == "x"));
            assert!(matches!(items[4], Json::Bool(true)));
            assert!(matches!(items[5], Json::Null));
        },
        other => panic!("{other:?}"),
    }
    assert_eq!(handle_response(200, "{").unwrap_err(), CustomError::Decode);
}
