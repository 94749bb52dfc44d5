use vstd::prelude::*;

verus! {

/// What the resolution logic reads of the Gamma API's reply about a market:
/// the `closed` field when it is a boolean, and the `outcomePrices` field when
/// it is an array, each element kept when it is a string.
pub struct ResolveReply {
    pub closed: Option<bool>,
    pub outcome_prices: Option<Vec<Option<String>>>,
}

impl ResolveReply {
    /// The reply as plain values.
    pub open spec fn model(&self) -> (Option<bool>, Option<Seq<Option<Seq<char>>>>) {
        (self.closed, self.outcome_prices.deep_view())
    }
}

/// What `serde_json` makes of a reply body read as a JSON value: `None` when
/// the body is not JSON; else the `closed` field as a boolean and the
/// `outcomePrices` field as an array of optional strings.
pub uninterp spec fn json_resolve_reply(body: Seq<u8>) -> Option<
    (Option<bool>, Option<Seq<Option<Seq<char>>>>),
>;

/// Trusted: calls `serde_json::from_slice::<serde_json::Value>`, then reads
/// `closed` with `Value::as_bool`, `outcomePrices` with `Value::as_array` and
/// each of its elements with `Value::as_str`. The claim is only that the
/// result is a function of the body, named `json_resolve_reply`.
#[verifier::external_body]
fn parse_resolve_reply(body: &[u8]) -> (reply: Option<ResolveReply>)
    ensures
        match reply {
            Some(r) => json_resolve_reply(body@) == Some(r.model()),
            None => json_resolve_reply(body@) is None,
        },
{
    match serde_json::from_slice::<serde_json::Value>(body) {
        Ok(v) => Some(ResolveReply {
            closed: v["closed"].as_bool(),
            outcome_prices: v["outcomePrices"].as_array().map(
                |a| a.iter().map(|p| p.as_str().map(|s| s.to_string())).collect(),
            ),
        }),
        Err(_) => None,
    }
}

/// The address under which the Gamma API describes the market `market_id`.
pub fn market_by_id_url(market_id: &str) -> (url: String)
    ensures
        url@ == "https://gamma-api.polymarket.com/markets/"@ + market_id@,
{
    let mut url = String::from_str("https://gamma-api.polymarket.com/markets/");
    url.append(market_id);
    url
}

/// An outcome price as text, with `"0"` standing for one that is not a string.
pub open spec fn price_text_or_zero(price: Option<Seq<char>>) -> Seq<char> {
    match price {
        Some(t) => t,
        None => "0"@,
    }
}

/// The official prices of the two outcomes, as text: present when the market
/// is closed and lists its outcome prices.
pub open spec fn official_texts_of(model: (Option<bool>, Option<Seq<Option<Seq<char>>>>)) -> Option<
    (Seq<char>, Seq<char>),
> {
    match model.1 {
        Some(prices) => if model.0 == Some(true) {
            Some((price_text_or_zero(prices[0]), price_text_or_zero(prices[1])))
        } else {
            None
        },
        None => None,
    }
}

/// Whether a reply is one on which the official prices are read but fewer
/// than two are listed.
pub open spec fn lists_too_few_prices(model: (Option<bool>, Option<Seq<Option<Seq<char>>>>)) -> bool {
    model.0 == Some(true) && model.1 is Some && model.1.unwrap().len() < 2
}

fn text_or_zero(price: &Option<String>) -> (text: String)
    ensures
        text@ == price_text_or_zero(price.deep_view()),
{
    match price {
        Some(t) => t.clone(),
        None => {
            proof {
                reveal_strlit("0");
            }
            String::from_str("0")
        },
    }
}

/// Reads the official prices of the two outcomes from a reply: the texts of
/// the first two outcome prices, `"0"` for one that is not a string, when the
/// market is closed and its outcome prices are listed.
pub fn official_price_texts(reply: &ResolveReply) -> (texts: Option<(String, String)>)
    requires
        !lists_too_few_prices(reply.model()),
    ensures
        texts.deep_view() == official_texts_of(reply.model()),
{
    match &reply.outcome_prices {
        Some(prices) => {
            if reply.closed == Some(true) {
                Some((text_or_zero(&prices[0]), text_or_zero(&prices[1])))
            } else {
                None
            }
        },
        None => None,
    }
}

/// What the body of a reply says of the official outcome prices.
pub enum OfficialPrices {
    /// The body is not JSON, the market is not closed or lists no prices.
    Unavailable,
    /// The texts of the first two outcome prices (`"0"` for a non-string).
    Listed(String, String),
    /// The market is closed but lists fewer than two outcome prices.
    TooFew,
}

/// Reads the official outcome prices out of the body of the Gamma API's
/// reply about a market.
pub fn read_official_prices(body: &[u8]) -> (prices: OfficialPrices)
    ensures
        match json_resolve_reply(body@) {
            None => prices is Unavailable,
            Some(model) => if lists_too_few_prices(model) {
                prices is TooFew
            } else {
                match prices {
                    OfficialPrices::Listed(up, down) => official_texts_of(model) == Some(
                        (up@, down@),
                    ),
                    OfficialPrices::Unavailable => official_texts_of(model) is None,
                    OfficialPrices::TooFew => false,
                }
            },
        },
{
    let reply = match parse_resolve_reply(body) {
        Some(r) => r,
        None => return OfficialPrices::Unavailable,
    };
    let too_few = match &reply.outcome_prices {
        Some(p) => reply.closed == Some(true) && p.len() < 2,
        None => false,
    };
    if too_few {
        return OfficialPrices::TooFew;
    }
    match official_price_texts(&reply) {
        Some((up, down)) => OfficialPrices::Listed(up, down),
        None => OfficialPrices::Unavailable,
    }
}

/// The result of a finished market.
#[derive(Debug, Clone, Copy, PartialEq, Eq, Structural)]
pub enum Outcome {
    Up,
    Down,
}

impl Outcome {
    /// The text under which the result is stored: `"UP"` or `"DOWN"`.
    pub fn label(&self) -> (text: String)
        ensures
            text@ == (match self {
                Outcome::Up => "UP"@,
                Outcome::Down => "DOWN"@,
            }),
    {
        match self {
            Outcome::Up => String::from_str("UP"),
            Outcome::Down => String::from_str("DOWN"),
        }
    }
}

/// Decides the result of a market: by the official prices when they could be
/// read (`official_up_wins` says whether the first outcome's price is higher),
/// else by the last prices seen (`last_up_wins`).
pub fn resolve_outcome(official_up_wins: Option<bool>, last_up_wins: bool) -> (outcome: Outcome)
    ensures
        outcome == (if (match official_up_wins {
            Some(up_wins) => up_wins,
            None => last_up_wins,
        }) {
            Outcome::Up
        } else {
            Outcome::Down
        }),
{
    let up_wins = match official_up_wins {
        Some(w) => w,
        None => last_up_wins,
    };
    if up_wins {
        Outcome::Up
    } else {
        Outcome::Down
    }
}

} // verus!
