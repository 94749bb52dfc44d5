use vstd::prelude::*;

verus! {

/// A market as the Gamma API lists it. `clob_token_ids` and `outcomes` hold
/// JSON text: each is a JSON array of strings, in the same order.
#[derive(Debug)]
pub struct Market {
    pub id: String,
    pub question: String,
    pub clob_token_ids: String,
    pub outcomes: String,
    pub active: bool,
    pub closed: bool,
}

/// What `serde_json` makes of `text` when asked for a list of strings: the
/// strings, or `None` when `text` is not a JSON array of strings.
pub uninterp spec fn json_string_list(text: Seq<char>) -> Option<Seq<Seq<char>>>;

/// The Unicode lowercase form of a string, as `str::to_lowercase` computes it.
pub uninterp spec fn str_lowercase(text: Seq<char>) -> Seq<char>;

/// Trusted: calls `serde_json::from_str::<Vec<String>>` and keeps the value or
/// drops the error. The claim is only that the result is a function of the
/// text, named `json_string_list`; what JSON it accepts is not stated.
#[verifier::external_body]
fn parse_string_list(text: &str) -> (list: Option<Vec<String>>)
    ensures
        list.deep_view() == json_string_list(text@),
{
    serde_json::from_str::<Vec<String>>(text).ok()
}

/// Trusted: calls `str::to_lowercase`. The claim is only that the result is
/// a function of the text, named `str_lowercase`.
#[verifier::external_body]
fn lowercase(text: &str) -> (lower: String)
    ensures
        lower@ == str_lowercase(text@),
{
    text.to_lowercase()
}

/// The address under which the Gamma API lists the markets with `slug`.
pub fn market_by_slug_url(slug: &str) -> (url: String)
    ensures
        url@ == "https://gamma-api.polymarket.com/markets?slug="@ + slug@,
{
    let mut url = String::from_str("https://gamma-api.polymarket.com/markets?slug=");
    url.append(slug);
    url
}

/// The token paired with the last of the first `n` outcomes whose lowercase
/// form is `label`, or the empty text when there is none.
pub open spec fn token_for(
    tokens: Seq<Seq<char>>,
    outcomes: Seq<Seq<char>>,
    label: Seq<char>,
    n: nat,
) -> Seq<char>
    decreases n,
{
    if n == 0 {
        seq![]
    } else if str_lowercase(outcomes[n - 1]) == label {
        tokens[n - 1]
    } else {
        token_for(tokens, outcomes, label, (n - 1) as nat)
    }
}

/// The (up, down) tokens of a two-outcome market: present when there are
/// exactly two tokens and two outcomes, and both an "up" and a "down" outcome
/// name a non-empty token.
pub open spec fn up_down_tokens(tokens: Seq<Seq<char>>, outcomes: Seq<Seq<char>>) -> Option<
    (Seq<char>, Seq<char>),
> {
    if tokens.len() != 2 || outcomes.len() != 2 {
        None
    } else {
        let up = token_for(tokens, outcomes, "up"@, 2);
        let down = token_for(tokens, outcomes, "down"@, 2);
        if up.len() == 0 || down.len() == 0 {
            None
        } else {
            Some((up, down))
        }
    }
}

/// Pairs the outcomes of a market with its tokens and returns the tokens of
/// the "up" and "down" outcomes (compared in lowercase).
pub fn select_up_down(tokens: &Vec<String>, outcomes: &Vec<String>) -> (pair: Option<
    (String, String),
>)
    ensures
        pair.deep_view() == up_down_tokens(tokens.deep_view(), outcomes.deep_view()),
{
    if tokens.len() != 2 || outcomes.len() != 2 {
        return None;
    }
    let ghost t = tokens.deep_view();
    let ghost o = outcomes.deep_view();
    proof {
        reveal_strlit("up");
        reveal_strlit("down");
        assert("up"@.len() != "down"@.len());
    }
    let up_label = String::from_str("up");
    let down_label = String::from_str("down");
    let mut up_token = String::new();
    let mut down_token = String::new();
    let mut i: usize = 0;
    while i < outcomes.len()
        invariant
            t == tokens.deep_view(),
            o == outcomes.deep_view(),
            t.len() == 2,
            o.len() == 2,
            tokens.len() == 2,
            outcomes.len() == 2,
            i <= 2,
            up_label@ == "up"@,
            down_label@ == "down"@,
            "up"@ != "down"@,
            up_token@ == token_for(t, o, "up"@, i as nat),
            down_token@ == token_for(t, o, "down"@, i as nat),
        decreases 2 - i,
    {
        let lower = lowercase(outcomes[i].as_str());
        if lower == up_label {
            up_token = tokens[i].clone();
        } else if lower == down_label {
            down_token = tokens[i].clone();
        }
        i = i + 1;
    }
    if up_token.as_str().is_empty() || down_token.as_str().is_empty() {
        return None;
    }
    Some((up_token, down_token))
}

/// Reads the tokens of the "up" and "down" outcomes of a market: both lists
/// are parsed as JSON arrays of strings, and `None` comes back when either
/// does not parse or `select_up_down` finds no pair.
pub fn extract_token_ids(market: &Market) -> (pair: Option<(String, String)>)
    ensures
        pair.deep_view() == (match (
            json_string_list(market.clob_token_ids@),
            json_string_list(market.outcomes@),
        ) {
            (Some(t), Some(o)) => up_down_tokens(t, o),
            _ => None,
        }),
{
    let tokens = match parse_string_list(market.clob_token_ids.as_str()) {
        Some(t) => t,
        None => return None,
    };
    let outcomes = match parse_string_list(market.outcomes.as_str()) {
        Some(o) => o,
        None => return None,
    };
    select_up_down(&tokens, &outcomes)
}


/// The tokens are paired by outcome, not by position: when one outcome reads
/// "up" and the other "down" (in lowercase), each token goes to its own
/// outcome, whichever order the lists come in.
pub proof fn lemma_tokens_follow_outcomes(
    up_token: Seq<char>,
    down_token: Seq<char>,
    up_outcome: Seq<char>,
    down_outcome: Seq<char>,
)
    requires
        str_lowercase(up_outcome) == "up"@,
        str_lowercase(down_outcome) == "down"@,
        up_token.len() > 0,
        down_token.len() > 0,
    ensures
        up_down_tokens(seq![up_token, down_token], seq![up_outcome, down_outcome]) == Some(
            (up_token, down_token),
        ),
        up_down_tokens(seq![down_token, up_token], seq![down_outcome, up_outcome]) == Some(
            (up_token, down_token),
        ),
{
    reveal_strlit("up");
    reveal_strlit("down");
    assert("up"@.len() != "down"@.len());
    let t = seq![up_token, down_token];
    let o = seq![up_outcome, down_outcome];
    assert(token_for(t, o, "down"@, 0) == Seq::<char>::empty());
    assert(token_for(t, o, "up"@, 1) == up_token);
    assert(token_for(t, o, "down"@, 1) == Seq::<char>::empty());
    let t2 = seq![down_token, up_token];
    let o2 = seq![down_outcome, up_outcome];
    assert(token_for(t2, o2, "up"@, 0) == Seq::<char>::empty());
    assert(token_for(t2, o2, "up"@, 1) == Seq::<char>::empty());
    assert(token_for(t2, o2, "down"@, 1) == down_token);
}

/// How many times a market is looked up before the watcher gives up on it.
pub const FETCH_ATTEMPTS: u32 = 10;

/// Seconds to wait after a lookup that found nothing.
pub const RETRY_PAUSE_SECS: u64 = 3;

/// What to do after a lookup of a market.
#[derive(Debug, PartialEq, Eq, Structural)]
pub enum RetryStep {
    /// The market was found: stop and hand it back.
    Found,
    /// Nothing was found: pause, then make the given attempt.
    PauseThenRetry(u32),
    /// Nothing was found on the last attempt: pause, then give up.
    PauseThenGiveUp,
}

/// The step after lookup number `attempt` (counted from 1).
pub open spec fn next_retry(attempt: int, found: bool) -> RetryStep {
    if found {
        RetryStep::Found
    } else if attempt < FETCH_ATTEMPTS {
        RetryStep::PauseThenRetry((attempt + 1) as u32)
    } else {
        RetryStep::PauseThenGiveUp
    }
}

/// Decides what follows lookup number `attempt` of a market, given whether
/// it found the market.
pub fn retry_step(attempt: u32, found: bool) -> (step: RetryStep)
    requires
        1 <= attempt <= FETCH_ATTEMPTS,
    ensures
        step == next_retry(attempt as int, found),
{
    if found {
        RetryStep::Found
    } else if attempt < FETCH_ATTEMPTS {
        RetryStep::PauseThenRetry(attempt + 1)
    } else {
        RetryStep::PauseThenGiveUp
    }
}

/// The number of lookups made from lookup number `attempt` on, when none of
/// them finds the market.
pub open spec fn lookups_while_missing(attempt: int) -> int
    decreases FETCH_ATTEMPTS - attempt,
{
    if 1 <= attempt && attempt < FETCH_ATTEMPTS {
        match next_retry(attempt, false) {
            RetryStep::PauseThenRetry(k) => 1 + lookups_while_missing(k as int),
            _ => 1,
        }
    } else {
        1
    }
}

/// A market that never shows up is looked up exactly ten times, then the
/// watcher gives up; a market found on some attempt ends the lookups there.
pub proof fn lemma_lookup_gives_up_after_ten(attempt: int)
    requires
        1 <= attempt <= FETCH_ATTEMPTS,
    ensures
        lookups_while_missing(attempt) == FETCH_ATTEMPTS - attempt + 1,
        next_retry(attempt, true) == RetryStep::Found,
        attempt == FETCH_ATTEMPTS ==> next_retry(attempt, false) == RetryStep::PauseThenGiveUp,
    decreases FETCH_ATTEMPTS - attempt,
{
    if attempt < FETCH_ATTEMPTS {
        lemma_lookup_gives_up_after_ten(attempt + 1);
    }
}

} // verus!
