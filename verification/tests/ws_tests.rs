use xrp_watcher::api::ws::{
    read_trade, subscription_message, trade_of, ws_stop_reason, PriceTracker, WsEvent, WsStop,
    WS_GRACE_SECS,
};

fn s(text: &str) -> String {
    text.to_string()
}

#[test]
fn subscription_names_both_tokens() {
    assert_eq!(
        subscription_message(&s("111"), &s("222")),
        Some(s(r#"{"assets_ids":["111","222"],"type":"market"}"#))
    );
    assert_eq!(
        subscription_message(&s("a\"b"), &s("c")),
        Some(s(r#"{"assets_ids":["a\"b","c"],"type":"market"}"#))
    );
}

#[test]
fn trades_are_read_from_messages() {
    let text = r#"{"event_type":"last_trade_price","asset_id":"111","price":"0.53","size":"10"}"#;
    assert_eq!(read_trade(text), Some((s("111"), s("0.53"))));
}

#[test]
fn other_messages_carry_no_trade() {
    assert_eq!(read_trade(r#"{"event_type":"book","asset_id":"111","price":"0.53"}"#), None);
    assert_eq!(read_trade(r#"{"event_type":"last_trade_price","price":"0.53"}"#), None);
    assert_eq!(read_trade(r#"{"event_type":"last_trade_price","asset_id":"111"}"#), None);
    assert_eq!(read_trade(r#"{"event_type":"last_trade_price","asset_id":"111","price":0.5}"#), None);
    assert_eq!(read_trade(r#"[{"event_type":"last_trade_price"}]"#), None);
    assert_eq!(read_trade("PONG"), None);
}

#[test]
fn trade_of_event() {
    let e = WsEvent { event_type: Some(s("last_trade_price")), asset_id: Some(s("x")), price: Some(s("1")) };
    assert_eq!(trade_of(&e), Some((s("x"), s("1"))));
    let e = WsEvent { event_type: None, asset_id: Some(s("x")), price: Some(s("1")) };
    assert_eq!(trade_of(&e), None);
}

#[test]
fn tracker_pairs_latest_prices() {
    let mut t: PriceTracker<f64> = PriceTracker::new(s("up"), s("down"));
    assert_eq!(t.record(&s("up"), 0.4), None);
    assert_eq!(t.record(&s("other"), 0.9), None);
    assert_eq!(t.record(&s("down"), 0.6), Some((0.4, 0.6)));
    assert_eq!(t.record(&s("up"), 0.45), Some((0.45, 0.6)));
    assert_eq!(t.up, Some(0.45));
    assert_eq!(t.down, Some(0.6));
}

#[test]
fn tracker_with_one_token_for_both_sides() {
    let mut t: PriceTracker<u32> = PriceTracker::new(s("same"), s("same"));
    assert_eq!(t.record(&s("same"), 7), Some((7, 7)));
}

#[test]
fn feed_stops_after_grace_period_or_on_change() {
    assert_eq!(WS_GRACE_SECS, 5);
    assert_eq!(ws_stop_reason(1005, 1000, &s("m"), &s("m")), WsStop::KeepGoing);
    assert_eq!(ws_stop_reason(1006, 1000, &s("m"), &s("m")), WsStop::MarketExpired);
    assert_eq!(ws_stop_reason(1006, 1000, &s("n"), &s("m")), WsStop::MarketExpired);
    assert_eq!(ws_stop_reason(900, 1000, &s("n"), &s("m")), WsStop::MarketChanged);
}
