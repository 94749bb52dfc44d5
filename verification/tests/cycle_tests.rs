use xrp_watcher::cycle::{plan_current_window, plan_window, tick_decision, PRELOAD_LEAD_SECS};
use xrp_watcher::models::buffer::MarketBuffer;

#[test]
fn current_window_plan() {
    let p = plan_current_window(1_700_000_123);
    assert_eq!(p.window_ts, 1_700_000_100);
    assert_eq!(p.end_ts, 1_700_000_400);
    assert_eq!(p.slug, "xrp-updown-5m-1700000100");
    let next = plan_window(p.end_ts);
    assert_eq!(next.window_ts, 1_700_000_400);
    assert_eq!(next.end_ts, 1_700_000_700);
    assert_eq!(next.slug, "xrp-updown-5m-1700000400");
}

#[test]
fn preload_near_the_end_and_rotate_at_the_end() {
    assert_eq!(PRELOAD_LEAD_SECS, 20);
    let d = tick_decision(1000, 979, false);
    assert!(!d.preload_next && !d.rotate);
    let d = tick_decision(1000, 980, false);
    assert!(d.preload_next && !d.rotate);
    let d = tick_decision(1000, 980, true);
    assert!(!d.preload_next && !d.rotate);
    let d = tick_decision(1000, 1000, true);
    assert!(!d.preload_next && d.rotate);
    let d = tick_decision(1000, 1003, false);
    assert!(d.preload_next && d.rotate);
}

#[test]
fn buffer_rotates_markets() {
    let mut b: MarketBuffer<&str> = MarketBuffer::new();
    assert!(b.prev.is_none() && b.curr.is_none() && b.futu.is_none());
    b.curr = Some("a");
    b.futu = Some("b");
    b.shift();
    assert_eq!((b.prev, b.curr, b.futu), (Some("a"), Some("b"), None));
    b.shift();
    assert_eq!((b.prev, b.curr, b.futu), (Some("b"), None, None));
}
