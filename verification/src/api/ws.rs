use vstd::prelude::*;

verus! {

/// Seconds a market is still followed after its end.
pub const WS_GRACE_SECS: i64 = 5;

/// What the price feed reads of a text message: the `event_type`,
/// `asset_id` and `price` fields, each kept when it is a string.
pub struct WsEvent {
    pub event_type: Option<String>,
    pub asset_id: Option<String>,
    pub price: Option<String>,
}

impl WsEvent {
    /// The message as plain values.
    pub open spec fn model(&self) -> (Option<Seq<char>>, Option<Seq<char>>, Option<Seq<char>>) {
        (self.event_type.deep_view(), self.asset_id.deep_view(), self.price.deep_view())
    }
}

/// What `serde_json` makes of a text message read as a JSON value: `None`
/// when it is not JSON; else its `event_type`, `asset_id` and `price` fields
/// as strings.
pub uninterp spec fn json_ws_event(text: Seq<char>) -> Option<
    (Option<Seq<char>>, Option<Seq<char>>, Option<Seq<char>>),
>;

/// How `serde_json::to_string` writes a list of strings as a JSON array.
pub uninterp spec fn json_string_list_text(items: Seq<Seq<char>>) -> Seq<char>;

/// Trusted: calls `serde_json::from_str::<serde_json::Value>`, then reads
/// the fields `event_type`, `asset_id` and `price` with `Value::as_str`. The
/// claim is only that the result is a function of the text, named
/// `json_ws_event`.
#[verifier::external_body]
fn parse_ws_event(text: &str) -> (event: Option<WsEvent>)
    ensures
        match event {
            Some(e) => json_ws_event(text@) == Some(e.model()),
            None => json_ws_event(text@) is None,
        },
{
    match serde_json::from_str::<serde_json::Value>(text) {
        Ok(v) => Some(WsEvent {
            event_type: v["event_type"].as_str().map(|s| s.to_string()),
            asset_id: v["asset_id"].as_str().map(|s| s.to_string()),
            price: v["price"].as_str().map(|s| s.to_string()),
        }),
        Err(_) => None,
    }
}

/// Trusted: calls `serde_json::to_string` on a list of strings. Its
/// documentation names the only ways it fails: a `Serialize` impl that
/// decides to fail, or a map with non-string keys. A `String` serializes as a
/// plain string and a `Vec` as a sequence, and the text is written into a
/// `Vec<u8>`, so neither applies and a text always comes back. What the text
/// is, is a function of the strings, named `json_string_list_text`.
#[verifier::external_body]
fn encode_string_list(items: &Vec<String>) -> (text: Option<String>)
    ensures
        text is Some,
        text matches Some(t) ==> t@ == json_string_list_text(items.deep_view()),
{
    serde_json::to_string(items).ok()
}

/// The subscription to the trades of the two tokens of a market:
/// `{"assets_ids":[<up_id>,<down_id>],"type":"market"}`.
pub open spec fn subscription_text(up_id: Seq<char>, down_id: Seq<char>) -> Seq<char> {
    "{\"assets_ids\":"@ + json_string_list_text(seq![up_id, down_id]) + ",\"type\":\"market\"}"@
}

/// Writes the message that subscribes the feed to the trades of both tokens;
/// it is always written.
pub fn subscription_message(up_id: &String, down_id: &String) -> (message: Option<String>)
    ensures
        message is Some,
        message matches Some(m) ==> m@ == subscription_text(up_id@, down_id@),
{
    let mut ids: Vec<String> = Vec::new();
    ids.push(up_id.clone());
    ids.push(down_id.clone());
    assert(ids.deep_view() =~= seq![up_id@, down_id@]);
    let list = match encode_string_list(&ids) {
        Some(l) => l,
        None => return None,
    };
    let mut message = String::from_str("{\"assets_ids\":");
    message.append(list.as_str());
    message.append(",\"type\":\"market\"}");
    Some(message)
}

/// The trade a message reports, as (asset, price text): present when its
/// event type is `last_trade_price` and it names an asset and a price.
pub open spec fn trade_of_model(
    model: (Option<Seq<char>>, Option<Seq<char>>, Option<Seq<char>>),
) -> Option<(Seq<char>, Seq<char>)> {
    match model {
        (Some(kind), Some(asset), Some(price)) => if kind == "last_trade_price"@ {
            Some((asset, price))
        } else {
            None
        },
        _ => None,
    }
}

/// Picks the trade out of a message of the feed: the asset and the price
/// text of a `last_trade_price` event.
pub fn trade_of(event: &WsEvent) -> (trade: Option<(String, String)>)
    ensures
        trade.deep_view() == trade_of_model(event.model()),
{
    let kind = match &event.event_type {
        Some(k) => k,
        None => return None,
    };
    let asset = match &event.asset_id {
        Some(a) => a,
        None => return None,
    };
    let price = match &event.price {
        Some(p) => p,
        None => return None,
    };
    let wanted = String::from_str("last_trade_price");
    if *kind == wanted {
        Some((asset.clone(), price.clone()))
    } else {
        None
    }
}

/// Reads the trade, if any, that a text message of the feed reports.
pub fn read_trade(text: &str) -> (trade: Option<(String, String)>)
    ensures
        trade.deep_view() == (match json_ws_event(text@) {
            Some(model) => trade_of_model(model),
            None => None,
        }),
{
    match parse_ws_event(text) {
        Some(event) => trade_of(&event),
        None => None,
    }
}

/// The latest trade price of each of the two tokens of a market.
pub struct PriceTracker<P> {
    pub up_id: String,
    pub down_id: String,
    pub up: Option<P>,
    pub down: Option<P>,
}

impl<P: Copy> PriceTracker<P> {
    /// The tracker after a trade of `asset` at `price`: the price replaces
    /// that of each token the asset is.
    pub open spec fn after_trade(self, asset: Seq<char>, price: P) -> Self {
        PriceTracker {
            up_id: self.up_id,
            down_id: self.down_id,
            up: if asset == self.up_id@ {
                Some(price)
            } else {
                self.up
            },
            down: if asset == self.down_id@ {
                Some(price)
            } else {
                self.down
            },
        }
    }

    /// The latest (up, down) prices, once both tokens have traded.
    pub open spec fn latest_pair(self) -> Option<(P, P)> {
        match (self.up, self.down) {
            (Some(u), Some(d)) => Some((u, d)),
            _ => None,
        }
    }

    /// A tracker that has seen no trade yet.
    pub fn new(up_id: String, down_id: String) -> (tracker: Self)
        ensures
            tracker.up_id == up_id,
            tracker.down_id == down_id,
            tracker.up is None,
            tracker.down is None,
    {
        PriceTracker { up_id, down_id, up: None, down: None }
    }

    /// Records a trade and returns the latest (up, down) prices once both
    /// tokens have traded.
    pub fn record(&mut self, asset: &String, price: P) -> (pair: Option<(P, P)>)
        ensures
            *final(self) == old(self).after_trade(asset@, price),
            pair == final(self).latest_pair(),
            final(self).up_id == old(self).up_id,
            final(self).down_id == old(self).down_id,
            final(self).up == (if asset@ == old(self).up_id@ {
                Some(price)
            } else {
                old(self).up
            }),
            final(self).down == (if asset@ == old(self).down_id@ {
                Some(price)
            } else {
                old(self).down
            }),
            pair is Some <==> (final(self).up is Some && final(self).down is Some),
            pair matches Some((u, d)) ==> final(self).up == Some(u) && final(self).down == Some(d),
    {
        if *asset == self.up_id {
            self.up = Some(price);
        }
        if *asset == self.down_id {
            self.down = Some(price);
        }
        match (self.up, self.down) {
            (Some(u), Some(d)) => Some((u, d)),
            _ => None,
        }
    }
}

/// A trade of a token is what the tracker then holds for it; a trade of any
/// other asset changes nothing; and once both tokens have traded, every
/// later trade leaves a complete pair.
pub proof fn lemma_tracker_keeps_latest<P: Copy>(tracker: PriceTracker<P>, asset: Seq<char>, price: P)
    ensures
        asset == tracker.up_id@ ==> tracker.after_trade(asset, price).up == Some(price),
        asset == tracker.down_id@ ==> tracker.after_trade(asset, price).down == Some(price),
        asset != tracker.up_id@ && asset != tracker.down_id@ ==> tracker.after_trade(asset, price)
            == tracker,
        tracker.latest_pair() is Some ==> tracker.after_trade(asset, price).latest_pair() is Some,
{
}

/// Why the feed of a market stops, or that it goes on.
#[derive(Debug, Clone, Copy, PartialEq, Eq, Structural)]
pub enum WsStop {
    /// The market ended more than the grace period ago.
    MarketExpired,
    /// The tracked market is no longer the one the feed was opened for.
    MarketChanged,
    /// Keep applying prices.
    KeepGoing,
}

/// Decides, before prices are applied, whether the feed opened for
/// `expected_market_id` stops.
pub fn ws_stop_reason(now: i64, end_ts: i64, market_id: &String, expected_market_id: &String) -> (stop:
    WsStop)
    requires
        end_ts <= i64::MAX - WS_GRACE_SECS,
    ensures
        stop == (if now > end_ts + WS_GRACE_SECS {
            WsStop::MarketExpired
        } else if market_id@ != expected_market_id@ {
            WsStop::MarketChanged
        } else {
            WsStop::KeepGoing
        }),
{
    if now > end_ts + WS_GRACE_SECS {
        WsStop::MarketExpired
    } else if *market_id != *expected_market_id {
        WsStop::MarketChanged
    } else {
        WsStop::KeepGoing
    }
}


/// A pair is reported exactly when both tokens have traded, and it is the
/// latest up price first and the latest down price second; a trade of a token
/// sets that token's price and leaves the other token's price as it was
/// (unless both names are the same token).
pub proof fn lemma_pair_is_latest_up_then_down<P: Copy>(
    tracker: PriceTracker<P>,
    asset: Seq<char>,
    price: P,
)
    ensures
        tracker.latest_pair() is Some <==> (tracker.up is Some && tracker.down is Some),
        tracker.latest_pair() matches Some((u, d)) ==> tracker.up == Some(u) && tracker.down
            == Some(d),
        tracker.up is None ==> tracker.latest_pair() is None,
        tracker.down is None ==> tracker.latest_pair() is None,
        asset == tracker.up_id@ ==> tracker.after_trade(asset, price).up == Some(price),
        asset != tracker.up_id@ ==> tracker.after_trade(asset, price).up == tracker.up,
        asset == tracker.down_id@ ==> tracker.after_trade(asset, price).down == Some(price),
        asset != tracker.down_id@ ==> tracker.after_trade(asset, price).down == tracker.down,
        tracker.after_trade(asset, price).up_id == tracker.up_id,
        tracker.after_trade(asset, price).down_id == tracker.down_id,
{
}

} // verus!
