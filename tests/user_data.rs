use binance_feed::messages::{
    decode_user_data_text, process_update, AccountConfig, DecodeError, FrameOutcome, UpdateHandling,
    UserDataStream, UserDataUpdate,
};

const ORDER: &str = r#"{"e":"ORDER_TRADE_UPDATE","E":1568879465651,"T":1568879465650,"o":{"s":"BTCUSDT","c":"TEST","S":"SELL","o":"TRAILING_STOP_MARKET","f":"GTC","q":"0.001","p":"0","ap":"0","sp":"7103.04","x":"NEW","X":"NEW","i":8886774,"l":"0","z":"0","L":"0","N":"USDT","n":"0","T":1568879465650,"t":0,"b":"0","a":"9.91","m":false,"R":false,"wt":"CONTRACT_PRICE","ot":"TRAILING_STOP_MARKET","ps":"LONG","cp":false,"AP":"7476.89","cr":"5.0","pP":false,"si":0,"ss":0,"rp":"0","V":"EXPIRE_TAKER","pm":"OPPONENT","gtd":0}}"#;

fn samples() -> Vec<(&'static str, &'static str)> {
    vec![
        ("ListenKeyExpired", r#"{"e":"LISTEN_KEY_EXPIRED","E":1576653824250}"#),
        ("AccountUpdate", r#"{"e":"ACCOUNT_UPDATE","E":1564745798939,"T":1564745798938,"a":{"m":"ORDER","B":[{"a":"USDT","wb":"122624.12345678","cw":"100.12345678","bc":"50.12345678"}],"P":[{"s":"BTCUSDT","pa":"0","ep":"0.00000","bep":"0","cr":"200","up":"0","mt":"isolated","iw":"0.00000000","ps":"BOTH"}]}}"#),
        ("MarginCallUpdate", r#"{"e":"MARGIN_CALL_UPDATE","E":1587727187525,"cw":"3.16812045","p":{"s":"ETHUSDT","ps":"LONG","pa":"1.327","mt":"CROSSED","iw":"0","mp":"187.17127","up":"-1.166074","mm":"1.614445"}}"#),
        ("OrderTradeUpdate", ORDER),
        ("TradeLite", r#"{"e":"TRADE_LITE","E":1721895408092,"T":1721895408214,"s":"BTCUSDT","q":"0.001","p":"0","m":false,"c":"z8hcUoOsqEdKMeKPSABslD","S":"BUY","L":"64089.20","l":"0.040","t":109100866,"i":8886774}"#),
        ("AccountConfigUpdate", r#"{"e":"ACCOUNT_CONFIG_UPDATE","E":1611646737479,"T":1611646737476,"ac":{"s":"BTCUSDT","l":25}}"#),
        ("StrategyUpdate", r#"{"e":"STRATEGY_UPDATE","T":1669262908216,"E":1669262908218,"su":{"si":176054594,"st":"GRID","ss":"NEW","s":"BTCUSDT","ut":1669262908216,"c":8007}}"#),
        ("GridUpdate", r#"{"e":"GRID_UPDATE","T":1669262908216,"E":1669262908218,"gu":{"si":176057039,"st":"GRID","ss":"WORKING","s":"BTCUSDT","r":"-0.00300716","up":"16720","uq":"-0.001","uf":"-0.00300716","mp":"0.0","ut":1669262908197}}"#),
        ("ConditionalOrderTriggerReject", r#"{"e":"CONDITIONAL_ORDER_TRIGGER_REJECT","E":1685517224945,"T":1685517224955,"or":{"s":"ETHUSDMT","i":155618472834,"r":"Due to the order could not be filled immediately, the FOK order has been rejected."}}"#),
    ]
}

fn variant(u: &UserDataUpdate) -> &'static str {
    match u {
        UserDataUpdate::ListenKeyExpired(_) => "ListenKeyExpired",
        UserDataUpdate::AccountUpdate(_) => "AccountUpdate",
        UserDataUpdate::MarginCallUpdate(_) => "MarginCallUpdate",
        UserDataUpdate::OrderTradeUpdate(_) => "OrderTradeUpdate",
        UserDataUpdate::TradeLite(_) => "TradeLite",
        UserDataUpdate::AccountConfigUpdate(_) => "AccountConfigUpdate",
        UserDataUpdate::StrategyUpdate(_) => "StrategyUpdate",
        UserDataUpdate::GridUpdate(_) => "GridUpdate",
        UserDataUpdate::ConditionalOrderTriggerReject(_) => "ConditionalOrderTriggerReject",
    }
}

#[test]
fn every_event_kind_decodes() {
    for (name, text) in samples() {
        let u = decode_user_data_text(text).unwrap_or_else(|e| panic!("{name}: {e:?}"));
        assert_eq!(variant(&u), name);
    }
}

#[test]
fn order_update_fields() {
    match decode_user_data_text(ORDER).unwrap() {
        UserDataUpdate::OrderTradeUpdate(o) => {
            assert_eq!(o.E, 1568879465651);
            assert_eq!(o.o.s, "BTCUSDT");
            assert_eq!(o.o.i, 8886774);
            assert_eq!(o.o.AP, Some("7476.89".to_string()));
            assert!(!o.o.m);
        },
        other => panic!("{other:?}"),
    }
}

#[test]
fn optional_fields_may_be_absent_or_null() {
    let absent = ORDER.replace(r#""AP":"7476.89","cr":"5.0","#, "");
    let nulls = ORDER.replace(r#""AP":"7476.89""#, r#""AP":null"#);
    for text in [absent, nulls] {
        match decode_user_data_text(&text).unwrap() {
            UserDataUpdate::OrderTradeUpdate(o) => assert_eq!(o.o.AP, None),
            other => panic!("{other:?}"),
        }
    }
}

#[test]
fn account_config_is_told_apart_by_shape() {
    let lev = r#"{"e":"ACCOUNT_CONFIG_UPDATE","E":1,"T":2,"ac":{"s":"BTCUSDT","l":25}}"#;
    let multi = r#"{"e":"ACCOUNT_CONFIG_UPDATE","E":1,"T":2,"ai":{"j":true}}"#;
    let neither = r#"{"e":"ACCOUNT_CONFIG_UPDATE","E":1,"T":2,"zz":{}}"#;
    match decode_user_data_text(lev).unwrap() {
        UserDataUpdate::AccountConfigUpdate(a) => match a.account_config {
            AccountConfig::LeverageConfig(l) => {
                assert_eq!(l.ac.s, "BTCUSDT");
                assert_eq!(l.ac.l, 25);
            },
            other => panic!("{other:?}"),
        },
        other => panic!("{other:?}"),
    }
    match decode_user_data_text(multi).unwrap() {
        UserDataUpdate::AccountConfigUpdate(a) => {
            assert!(matches!(a.account_config, AccountConfig::MultiAssetsConfig(m) if m.ai.j))
        },
        other => panic!("{other:?}"),
    }
    assert_eq!(decode_user_data_text(neither), Err(DecodeError::Malformed));
}

#[test]
fn unknown_tag_and_bad_bodies_are_decode_errors() {
    assert_eq!(decode_user_data_text(r#"{"e":"SOMETHING_NEW","E":1}"#), Err(DecodeError::Malformed));
    assert_eq!(decode_user_data_text(r#"{"E":1}"#), Err(DecodeError::Malformed));
    assert_eq!(decode_user_data_text(r#"{"e":"LISTEN_KEY_EXPIRED"}"#), Err(DecodeError::Malformed));
    assert_eq!(decode_user_data_text(r#"{"e":"LISTEN_KEY_EXPIRED","E":-1}"#), Err(DecodeError::Malformed));
    assert_eq!(decode_user_data_text("{not json"), Err(DecodeError::NotJson));
}

#[test]
fn a_bad_frame_does_not_stop_the_next() {
    let s = UserDataStream { listen_key: "key".to_string() };
    assert_eq!(s.handle_user_data_update("garbage"), FrameOutcome::Rejected(DecodeError::NotJson));
    assert_eq!(
        s.handle_user_data_update(r#"{"e":"LISTEN_KEY_EXPIRED","E":1576653824250}"#),
        FrameOutcome::Dispatched(UpdateHandling::KeyExpired)
    );
}

#[test]
fn dispatch_covers_every_kind() {
    let expected = [
        UpdateHandling::KeyExpired,
        UpdateHandling::Generic,
        UpdateHandling::Generic,
        UpdateHandling::OrderTrade,
        UpdateHandling::TradeLite,
        UpdateHandling::AccountConfig,
        UpdateHandling::Generic,
        UpdateHandling::Generic,
        UpdateHandling::Generic,
    ];
    for ((_, text), want) in samples().into_iter().zip(expected) {
        let u = decode_user_data_text(text).unwrap();
        assert_eq!(process_update(&u), want);
    }
}

#[test]
fn user_stream_url_ends_with_the_token() {
    let s = UserDataStream { listen_key: "pqia91ma19a5s61cv6a81va65sdf19v8a65a1a5s61cv6a81va65sdf19v8a65a1".to_string() };
    assert_eq!(s.url(), "wss://fstream.binance.com/ws/pqia91ma19a5s61cv6a81va65sdf19v8a65a1a5s61cv6a81va65sdf19v8a65a1");
}
