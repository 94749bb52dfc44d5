use xrp_watcher::api::resolve::{
    market_by_id_url, official_price_texts, read_official_prices, resolve_outcome, OfficialPrices,
    Outcome, ResolveReply,
};

fn listed(body: &str) -> Option<(String, String)> {
    match read_official_prices(body.as_bytes()) {
        OfficialPrices::Listed(a, b) => Some((a, b)),
        OfficialPrices::Unavailable => None,
        OfficialPrices::TooFew => panic!("too few prices"),
    }
}

#[test]
fn market_address() {
    assert_eq!(market_by_id_url("555"), "https://gamma-api.polymarket.com/markets/555");
}

#[test]
fn closed_market_lists_official_prices() {
    let body = r#"{"closed": true, "outcomePrices": ["1", "0"]}"#;
    assert_eq!(listed(body), Some(("1".to_string(), "0".to_string())));
}

#[test]
fn non_string_prices_read_as_zero() {
    let body = r#"{"closed": true, "outcomePrices": [1, "0.7", 3]}"#;
    assert_eq!(listed(body), Some(("0".to_string(), "0.7".to_string())));
}

#[test]
fn open_or_unlisted_markets_give_nothing() {
    assert_eq!(listed(r#"{"closed": false, "outcomePrices": ["1", "0"]}"#), None);
    assert_eq!(listed(r#"{"closed": "true", "outcomePrices": ["1", "0"]}"#), None);
    assert_eq!(listed(r#"{"closed": true, "outcomePrices": "[\"1\", \"0\"]"}"#), None);
    assert_eq!(listed(r#"{"closed": true}"#), None);
    assert_eq!(listed("not json"), None);
    assert_eq!(listed("[1, 2]"), None);
}

#[test]
fn closed_market_with_one_price_is_flagged() {
    let body = br#"{"closed": true, "outcomePrices": ["1"]}"#;
    assert!(matches!(read_official_prices(body), OfficialPrices::TooFew));
    let body = br#"{"closed": true, "outcomePrices": []}"#;
    assert!(matches!(read_official_prices(body), OfficialPrices::TooFew));
}

#[test]
fn official_texts_from_reply() {
    let reply = ResolveReply {
        closed: Some(true),
        outcome_prices: Some(vec![None, Some("0.3".to_string())]),
    };
    assert_eq!(official_price_texts(&reply), Some(("0".to_string(), "0.3".to_string())));
    let reply = ResolveReply { closed: None, outcome_prices: Some(vec![]) };
    assert_eq!(official_price_texts(&reply), None);
}

#[test]
fn official_result_wins_over_last_prices() {
    assert_eq!(resolve_outcome(Some(true), false), Outcome::Up);
    assert_eq!(resolve_outcome(Some(false), true), Outcome::Down);
    assert_eq!(resolve_outcome(None, true), Outcome::Up);
    assert_eq!(resolve_outcome(None, false), Outcome::Down);
}

#[test]
fn result_labels() {
    assert_eq!(Outcome::Up.label(), "UP");
    assert_eq!(Outcome::Down.label(), "DOWN");
}
