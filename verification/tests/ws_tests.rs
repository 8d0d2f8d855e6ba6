use onise::json::{serialize_json, JsonValue};
use onise::parse::parse_json;
use onise::ws_client::{classify_message, on_read_event, ReadAction, ReadEvent, SessionState};
use onise::ws_models::{
    WsAdminResponse, WsIncomingMessage, WsPingRequest, WsSubscribeRequest, WsSubscriptionPayload,
    WsUserTradingResponse,
};

#[test]
fn ping_frame_text_is_exact() {
    let req = WsPingRequest { event: "ping".to_string(), req_id: Some(42) };
    assert_eq!(serialize_json(&req.to_json()), r#"{"event":"ping","req_id":42}"#);
    let bare = WsPingRequest { event: "ping".to_string(), req_id: None };
    assert_eq!(serialize_json(&bare.to_json()), r#"{"event":"ping"}"#);
}

#[test]
fn subscribe_frame_carries_channel_and_symbol() {
    let req = WsSubscribeRequest {
        event: "subscribe".to_string(),
        req_id: Some(3),
        subscription: WsSubscriptionPayload::Ticker { symbol: "XBT/USD".to_string() },
    };
    let text = serialize_json(&req.to_json());
    assert_eq!(
        text,
        r#"{"event":"subscribe","req_id":3,"name":"ticker","symbol":"XBT/USD"}"#
    );
    // the constructed frame survives its own codec
    let back = parse_json(&text).unwrap();
    assert_eq!(serialize_json(&back), text);
}

#[test]
fn subscribe_round_trip_through_the_classifier() {
    // construct a subscribe frame for a channel/symbol pair
    let req = WsSubscribeRequest {
        event: "subscribe".to_string(),
        req_id: Some(7),
        subscription: WsSubscriptionPayload::Ticker { symbol: "XBT/USD".to_string() },
    };
    let _outbound = serialize_json(&req.to_json());
    // the server acknowledges with a subscription-status frame naming the
    // same channel; decoding it back yields that administrative message
    let echo = r#"{"event":"subscriptionStatus","channel":"ticker","status":"subscribed","req_id":7}"#;
    let doc = parse_json(echo).unwrap();
    match classify_message(doc) {
        WsIncomingMessage::Admin(WsAdminResponse::SubscriptionStatus {
            channel,
            status,
            req_id,
            error_message,
        }) => {
            assert_eq!(channel, "ticker");
            assert_eq!(status, "subscribed");
            assert_eq!(req_id, Some(7));
            assert_eq!(error_message, None);
        }
        _ => panic!("a subscription acknowledgment must classify as administrative"),
    }
}

#[test]
fn classify_system_status_and_heartbeat() {
    let doc = parse_json(r#"{"event":"systemStatus","status":"online","version":"2.0.0"}"#).unwrap();
    match classify_message(doc) {
        WsIncomingMessage::Admin(WsAdminResponse::SystemStatus { status, version }) => {
            assert_eq!(status, "online");
            assert_eq!(version, "2.0.0");
        }
        _ => panic!("expected a system-status event"),
    }
    let hb = parse_json(r#"{"event":"heartbeat"}"#).unwrap();
    assert!(matches!(
        classify_message(hb),
        WsIncomingMessage::Admin(WsAdminResponse::Heartbeat {})
    ));
}

#[test]
fn classify_ticker_by_structure() {
    let doc = parse_json(
        r#"{"channel":"ticker","symbol":"XBT/USD",
            "best_ask_price":"30000.1","best_ask_quantity":"1.2",
            "best_bid_price":"30000.0","best_bid_quantity":"0.8",
            "last_trade_price":"30000.05","last_trade_quantity":"0.1",
            "volume_24h":"812.7","vwap_24h":"29990.2","trades_24h":5210,
            "low_24h":"29000.0","high_24h":"30500.0","open_24h":"29500.0"}"#,
    )
    .unwrap();
    match classify_message(doc) {
        WsIncomingMessage::TickerMsg(t) => {
            assert_eq!(t.symbol, "XBT/USD");
            assert_eq!(t.best_bid_price, "30000.0");
            assert_eq!(t.best_ask_price, "30000.1");
            assert_eq!(t.trades_24h, 5210);
        }
        _ => panic!("a complete ticker shape must classify as a ticker"),
    }
}

#[test]
fn classify_book_with_entries() {
    let doc = parse_json(
        r#"{"channel":"book","symbol":"XBT/USD",
            "bids":[{"price":"30000.0","quantity":"0.5"}],
            "asks":[{"price":"30001.0","quantity":"0.7"},{"price":"30002.0","quantity":"0.1"}]}"#,
    )
    .unwrap();
    match classify_message(doc) {
        WsIncomingMessage::BookMsg(b) => {
            assert_eq!(b.bids.len(), 1);
            assert_eq!(b.asks.len(), 2);
            assert_eq!(b.bids[0].price, "30000.0");
            assert_eq!(b.asks[1].quantity, "0.1");
        }
        _ => panic!("a book shape must classify as a book"),
    }
}

#[test]
fn classify_balances_keeps_wire_order() {
    let doc = parse_json(r#"{"channel":"balances","balances":{"ZUSD":"120.5","XXBT":"0.25"}}"#)
        .unwrap();
    match classify_message(doc) {
        WsIncomingMessage::BalancesMsg(b) => {
            assert_eq!(b.balances.len(), 2);
            assert_eq!(b.balances[0], ("ZUSD".to_string(), "120.5".to_string()));
            assert_eq!(b.balances[1], ("XXBT".to_string(), "0.25".to_string()));
        }
        _ => panic!("a balances shape must classify as balances"),
    }
}

#[test]
fn classify_trading_acknowledgment() {
    let doc = parse_json(
        r#"{"event":"addOrderStatus","status":"ok","txid":"OABC12","req_id":9}"#,
    )
    .unwrap();
    match classify_message(doc) {
        WsIncomingMessage::Trading(WsUserTradingResponse::AddOrderStatus {
            status,
            txid,
            req_id,
            error_message,
        }) => {
            assert_eq!(status, "ok");
            assert_eq!(txid, Some("OABC12".to_string()));
            assert_eq!(req_id, Some(9));
            assert_eq!(error_message, None);
        }
        _ => panic!("an order acknowledgment must classify as trading"),
    }
}

#[test]
fn unmatched_frames_are_kept_raw() {
    let text = r#"{"event":"somethingNew","payload":[1,2,3]}"#;
    let doc = parse_json(text).unwrap();
    match classify_message(doc) {
        WsIncomingMessage::CatchAll(raw) => assert_eq!(serialize_json(&raw), text),
        _ => panic!("unknown shapes must pass through verbatim"),
    }
    let arr = parse_json("[1,2]").unwrap();
    assert!(matches!(classify_message(arr), WsIncomingMessage::CatchAll(_)));
}

#[test]
fn read_loop_transitions() {
    // a textual frame dispatches its classified message and stays open
    let (st, act) = on_read_event(
        SessionState::Open,
        ReadEvent::TextFrame(r#"{"event":"heartbeat"}"#.to_string()),
    );
    assert_eq!(st, SessionState::Open);
    assert!(matches!(
        act,
        ReadAction::Dispatch(WsIncomingMessage::Admin(WsAdminResponse::Heartbeat {}))
    ));
    // unparsable text is reported verbatim, not dropped silently
    let (st, act) = on_read_event(SessionState::Open, ReadEvent::TextFrame("not json".to_string()));
    assert_eq!(st, SessionState::Open);
    assert!(matches!(act, ReadAction::ReportUnparsed(t) if t == "not json"));
    // control frames are reported, never decoded
    let (st, act) = on_read_event(SessionState::Open, ReadEvent::PingFrame);
    assert_eq!(st, SessionState::Open);
    assert!(matches!(act, ReadAction::ReportControl));
    // a close frame ends the session
    let (st, act) = on_read_event(SessionState::Open, ReadEvent::CloseFrame);
    assert_eq!(st, SessionState::Closed);
    assert!(matches!(act, ReadAction::Stop));
    // a read error ends the session and is reported once
    let (st, act) = on_read_event(
        SessionState::Open,
        ReadEvent::TransportError("connection reset".to_string()),
    );
    assert_eq!(st, SessionState::Closed);
    assert!(matches!(act, ReadAction::Fail(e) if e == "connection reset"));
}

#[test]
fn add_order_frame_includes_only_set_options() {
    let req = onise::ws_models::WsAddOrderRequest {
        event: "addOrder".to_string(),
        token: "tok".to_string(),
        req_id: None,
        order_type: "limit".to_string(),
        symbol: "XBT/USD".to_string(),
        side: "buy".to_string(),
        quantity: "1.25".to_string(),
        price: Some("37500".to_string()),
        stop_price: None,
        limit_price: None,
        time_in_force: None,
        expire_time: None,
        post_only: Some(true),
        reduce_only: None,
        self_trade_prevention: None,
        trigger_signal: None,
        leverage: None,
        client_order_id: None,
        take_profit: None,
        take_profit_price: None,
        stop_loss: None,
        stop_loss_price: None,
        conditional_close: None,
        close_price: None,
        take_profit_trigger: None,
        stop_loss_trigger: None,
        position_id: None,
    };
    assert_eq!(
        serialize_json(&req.to_json()),
        r#"{"event":"addOrder","token":"tok","orderType":"limit","symbol":"XBT/USD","side":"buy","quantity":"1.25","price":"37500","postOnly":true}"#
    );
}
