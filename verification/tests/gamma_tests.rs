use xrp_watcher::api::gamma::{
    extract_token_ids, market_by_slug_url, retry_step, select_up_down, Market, RetryStep,
    FETCH_ATTEMPTS,
};

fn market(tokens: &str, outcomes: &str) -> Market {
    Market {
        id: "12345".to_string(),
        question: "XRP Up or Down?".to_string(),
        clob_token_ids: tokens.to_string(),
        outcomes: outcomes.to_string(),
        active: true,
        closed: false,
    }
}

fn pair(up: &str, down: &str) -> Option<(String, String)> {
    Some((up.to_string(), down.to_string()))
}

#[test]
fn slug_lookup_address() {
    assert_eq!(
        market_by_slug_url("xrp-updown-5m-1700000100"),
        "https://gamma-api.polymarket.com/markets?slug=xrp-updown-5m-1700000100"
    );
}

#[test]
fn tokens_follow_their_outcomes() {
    let m = market(r#"["111", "222"]"#, r#"["Up", "Down"]"#);
    assert_eq!(extract_token_ids(&m), pair("111", "222"));
    let m = market(r#"["111","222"]"#, r#"["Down","Up"]"#);
    assert_eq!(extract_token_ids(&m), pair("222", "111"));
}

#[test]
fn outcomes_compare_in_lowercase() {
    let m = market(r#"["a","b"]"#, r#"["UP","DOWN"]"#);
    assert_eq!(extract_token_ids(&m), pair("a", "b"));
    let m = market(r#"["a","b"]"#, r#"["up","dOwN"]"#);
    assert_eq!(extract_token_ids(&m), pair("a", "b"));
}

#[test]
fn lists_that_do_not_parse_give_nothing() {
    assert_eq!(extract_token_ids(&market("not json", r#"["Up","Down"]"#)), None);
    assert_eq!(extract_token_ids(&market(r#"["a","b"]"#, "[Up, Down]")), None);
    assert_eq!(extract_token_ids(&market(r#"[1, 2]"#, r#"["Up","Down"]"#)), None);
}

#[test]
fn only_two_outcome_markets_are_read() {
    assert_eq!(extract_token_ids(&market(r#"["a","b","c"]"#, r#"["Up","Down"]"#)), None);
    assert_eq!(extract_token_ids(&market(r#"["a","b"]"#, r#"["Up","Down","Flat"]"#)), None);
    assert_eq!(extract_token_ids(&market(r#"[]"#, r#"[]"#)), None);
}

#[test]
fn both_sides_must_be_named() {
    assert_eq!(extract_token_ids(&market(r#"["a","b"]"#, r#"["Yes","No"]"#)), None);
    assert_eq!(extract_token_ids(&market(r#"["a","b"]"#, r#"["Up","Up"]"#)), None);
    assert_eq!(extract_token_ids(&market(r#"["","b"]"#, r#"["Up","Down"]"#)), None);
}

#[test]
fn select_works_on_parsed_lists() {
    let tokens = vec!["t1".to_string(), "t2".to_string()];
    let outcomes = vec!["Down".to_string(), "Up".to_string()];
    assert_eq!(select_up_down(&tokens, &outcomes), pair("t2", "t1"));
    let outcomes = vec!["Up".to_string(), "Up".to_string()];
    assert_eq!(select_up_down(&tokens, &outcomes), None);
}

#[test]
fn lookups_stop_after_ten_attempts() {
    assert_eq!(FETCH_ATTEMPTS, 10);
    assert_eq!(retry_step(1, true), RetryStep::Found);
    assert_eq!(retry_step(10, true), RetryStep::Found);
    assert_eq!(retry_step(1, false), RetryStep::PauseThenRetry(2));
    assert_eq!(retry_step(9, false), RetryStep::PauseThenRetry(10));
    assert_eq!(retry_step(10, false), RetryStep::PauseThenGiveUp);
    let mut attempt = 1;
    let mut lookups = 0;
    loop {
        lookups += 1;
        match retry_step(attempt, false) {
            RetryStep::PauseThenRetry(next) => attempt = next,
            _ => break,
        }
    }
    assert_eq!(lookups, 10);
}
