use binance_feed::json::Json;
use binance_feed::rest::{handle_response, CustomError, ExchangeError, RestConfig};

fn config(secret: &str) -> RestConfig {
    RestConfig::new(Some("api-key".to_string()), Some(secret.to_string()), "https://fapi.binance.com/fapi/v1/".to_string())
}

#[test]
fn signature_matches_a_known_hmac() {
    let url = config("Jefe").signed_request("order", "what do ya want for nothing?");
    assert_eq!(
        url,
        "https://fapi.binance.com/fapi/v1/order?what do ya want for nothing?&signature=5bdcc146bf60754e6a042426089575c75a003f089d2739839dec58b964ec3843"
    );
}

#[test]
fn signing_is_deterministic_and_keyed() {
    let body = "symbol=BTCUSDT&side=BUY";
    let a1 = config("secretA").signed_request("order", body);
    let a2 = config("secretA").signed_request("order", body);
    let b = config("secretB").signed_request("order", body);
    assert_eq!(a1, a2);
    assert_ne!(a1, b);
    assert!(a1.starts_with("https://fapi.binance.com/fapi/v1/order?symbol=BTCUSDT&side=BUY&signature="));
    assert_eq!(a1.len() - a1.find("&signature=").unwrap() - "&signature=".len(), 64);
}

#[test]
fn signed_url_from_a_tag() {
    let url = config("s").signed_url_with_tag("listenKey", "a=1", &[0x00, 0x0f, 0xa5, 0xff]);
    assert_eq!(url, "https://fapi.binance.com/fapi/v1/listenKey?a=1&signature=000fa5ff");
}

#[test]
fn missing_keys_are_empty() {
    let c = RestConfig::new(None, None, "h/".to_string());
    assert_eq!(c.api_key, "");
    assert_eq!(c.secret_key, "");
    assert_eq!(c.host, "h/");
}

#[test]
fn headers_with_and_without_content_type() {
    let c = config("s");
    let pair = |a: &str, b: &str| (a.to_string(), b.to_string());
    assert_eq!(
        c.build_headers(true).unwrap(),
        vec![
            pair("user-agent", "binance-rs"),
            pair("content-type", "application/x-www-form-urlencoded"),
            pair("x-mbx-apikey", "api-key"),
        ]
    );
    assert_eq!(c.build_headers(false).unwrap(), vec![pair("user-agent", "binance-rs"), pair("x-mbx-apikey", "api-key")]);
}

#[test]
fn api_key_with_control_character_is_refused() {
    let c = RestConfig::new(Some("bad\nkey".to_string()), None, "h/".to_string());
    assert_eq!(c.build_headers(true), Err(CustomError::InvalidHeader));
    let tab = RestConfig::new(Some("ok\tkey".to_string()), None, "h/".to_string());
    assert!(tab.build_headers(false).is_ok());
}

#[test]
fn unsigned_urls() {
    let c = config("s");
    assert_eq!(c.get_url("exchangeInfo", None), "https://fapi.binance.com/fapi/v1/exchangeInfo");
    assert_eq!(c.get_url("depth", Some("symbol=BTCUSDT")), "https://fapi.binance.com/fapi/v1/depth?symbol=BTCUSDT");
    assert_eq!(c.post_url("listenKey", None), "https://fapi.binance.com/fapi/v1/listenKey");
    assert_eq!(c.post_url("listenKey", Some("BTCUSDT")), "https://fapi.binance.com/fapi/v1/listenKey?symbol=BTCUSDT");
    assert_eq!(c.put_url("listenKey", "abc", None), "https://fapi.binance.com/fapi/v1/listenKey?listenKey=abc");
    assert_eq!(
        c.put_url("listenKey", "abc", Some("BTCUSDT")),
        "https://fapi.binance.com/fapi/v1/listenKey?listenKey=abc&symbol=BTCUSDT"
    );
}

#[test]
fn responses_are_classified_by_status() {
    match handle_response(200, r#"{"listenKey":"k"}"#) {
        Ok(Json::Object(m)) => assert_eq!(m.len(), 1),
        other => panic!("{other:?}"),
    }
    assert_eq!(handle_response(200, "<html>").unwrap_err(), CustomError::Decode);
    assert_eq!(
        handle_response(400, r#"{"code":-1121,"msg":"Invalid symbol."}"#).unwrap_err(),
        CustomError::BinanceError { response: ExchangeError { code: -1121, msg: "Invalid symbol.".to_string() } }
    );
    assert_eq!(handle_response(400, r#"{"oops":1}"#).unwrap_err(), CustomError::Decode);
    assert_eq!(handle_response(401, "").unwrap_err(), CustomError::Unauthorized);
    assert_eq!(handle_response(500, "").unwrap_err(), CustomError::InternalServerError);
    assert_eq!(handle_response(503, "").unwrap_err(), CustomError::ServiceUnavailable);
    assert_eq!(handle_response(404, "{}").unwrap_err(), CustomError::UnexpectedStatus(404));
}
