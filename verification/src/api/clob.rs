use vstd::prelude::*;

verus! {

/// The address of the midpoint price of `token_id` on the CLOB API.
pub fn midpoint_url(token_id: &str) -> (url: String)
    ensures
        url@ == "https://clob.polymarket.com/midpoint?token_id="@ + token_id@,
{
    let mut url = String::from_str("https://clob.polymarket.com/midpoint?token_id=");
    url.append(token_id);
    url
}

/// The address of the last trade price of `token_id` on the CLOB API.
pub fn last_trade_url(token_id: &str) -> (url: String)
    ensures
        url@ == "https://clob.polymarket.com/last-trade?token_id="@ + token_id@,
{
    let mut url = String::from_str("https://clob.polymarket.com/last-trade?token_id=");
    url.append(token_id);
    url
}

/// Where an initial price comes from.
#[derive(Debug, Clone, Copy, PartialEq, Eq, Structural)]
pub enum PriceSource {
    /// The midpoint of the order book.
    Midpoint,
    /// The price of the last trade.
    LastTrade,
    /// The default price, used when neither lookup gave one.
    Fallback,
}

/// The next move in the search for an initial price.
pub enum PriceLookup<P> {
    /// Ask the given source.
    Fetch(PriceSource),
    /// The search is over: this price, from this source.
    Done(P, PriceSource),
}

/// The move after asking `tried` for a price and getting `got`: a price ends
/// the search; a failed midpoint leads to the last trade; a failed last trade
/// ends the search with `fallback`.
pub open spec fn next_price_lookup<P>(tried: PriceSource, got: Option<P>, fallback: P) -> PriceLookup<
    P,
> {
    match got {
        Some(p) => PriceLookup::Done(p, tried),
        None => match tried {
            PriceSource::Midpoint => PriceLookup::Fetch(PriceSource::LastTrade),
            _ => PriceLookup::Done(fallback, PriceSource::Fallback),
        },
    }
}

/// Decides the next move of the search for an initial price, after asking
/// `tried` (the midpoint or the last trade) and getting `got`.
pub fn price_lookup_step<P>(tried: PriceSource, got: Option<P>, fallback: P) -> (next: PriceLookup<P>)
    requires
        tried != PriceSource::Fallback,
    ensures
        next == next_price_lookup(tried, got, fallback),
{
    match got {
        Some(p) => PriceLookup::Done(p, tried),
        None => match tried {
            PriceSource::Midpoint => PriceLookup::Fetch(PriceSource::LastTrade),
            _ => PriceLookup::Done(fallback, PriceSource::Fallback),
        },
    }
}

/// The initial price: the midpoint when there is one, else the last trade
/// price when there is one, else the fallback.
pub open spec fn initial_price_of<P>(midpoint: Option<P>, last_trade: Option<P>, fallback: P) -> P {
    match midpoint {
        Some(p) => p,
        None => match last_trade {
            Some(p) => p,
            None => fallback,
        },
    }
}

/// A search that starts at the midpoint ends after at most two lookups, with
/// the initial price; the last trade is asked only when the midpoint has no
/// price.
pub proof fn lemma_price_search_order<P>(midpoint: Option<P>, last_trade: Option<P>, fallback: P)
    ensures
        match next_price_lookup(PriceSource::Midpoint, midpoint, fallback) {
            PriceLookup::Done(p, s) => midpoint is Some && s == PriceSource::Midpoint && p
                == initial_price_of(midpoint, last_trade, fallback),
            PriceLookup::Fetch(s) => midpoint is None && s == PriceSource::LastTrade && (match next_price_lookup(
                PriceSource::LastTrade,
                last_trade,
                fallback,
            ) {
                PriceLookup::Done(p, _) => p == initial_price_of(midpoint, last_trade, fallback),
                PriceLookup::Fetch(_) => false,
            }),
        },
{
}

} // verus!
