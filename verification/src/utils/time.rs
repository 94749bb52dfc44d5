use vstd::prelude::*;

verus! {

/// Length of one market window, in seconds.
pub const WINDOW_SECS: i64 = 300;

/// The start of the window that holds `now`: the last multiple of the
/// window length at or before `now`.
pub open spec fn window_start(now: int) -> int {
    now - now % 300
}

/// The character of a decimal digit `d` (`0 <= d < 10`).
pub open spec fn digit_char(d: int) -> char {
    (d + 48) as char
}

/// The decimal digits of `n`, most significant first, without leading zeros.
pub open spec fn nat_digits(n: nat) -> Seq<char>
    decreases n,
{
    if n < 10 {
        seq![digit_char(n as int)]
    } else {
        nat_digits(n / 10).push(digit_char((n % 10) as int))
    }
}

/// The decimal text of an integer, with a leading `-` when it is negative.
pub open spec fn decimal_text(n: int) -> Seq<char> {
    if n < 0 {
        seq!['-'] + nat_digits((-n) as nat)
    } else {
        nat_digits(n as nat)
    }
}

/// The slug of the market whose window starts at `window_ts`.
pub open spec fn slug_text(window_ts: int) -> Seq<char> {
    "xrp-updown-5m-"@ + decimal_text(window_ts)
}

/// Returns the start of the five-minute window that holds `now`: the last
/// multiple of 300 at or before `now`. Below `i64::MIN + 8` that start does
/// not fit in an `i64`.
pub fn current_window_ts(now: i64) -> (start: i64)
    requires
        i64::MIN + 8 <= now,
    ensures
        start == window_start(now as int),
{
    let r = now % WINDOW_SECS;
    if r < 0 {
        now - r - WINDOW_SECS
    } else {
        now - r
    }
}

/// Returns the end of the window that starts at `window_ts`.
pub fn window_end_ts(window_ts: i64) -> (end: i64)
    requires
        window_ts <= i64::MAX - WINDOW_SECS,
    ensures
        end == window_ts + WINDOW_SECS,
{
    window_ts + WINDOW_SECS
}

fn digit_str(d: u64) -> (s: &'static str)
    requires
        d < 10,
    ensures
        s@ == seq![digit_char(d as int)],
{
    proof {
        reveal_strlit("0");
        reveal_strlit("1");
        reveal_strlit("2");
        reveal_strlit("3");
        reveal_strlit("4");
        reveal_strlit("5");
        reveal_strlit("6");
        reveal_strlit("7");
        reveal_strlit("8");
        reveal_strlit("9");
    }
    if d == 0 {
        "0"
    } else if d == 1 {
        "1"
    } else if d == 2 {
        "2"
    } else if d == 3 {
        "3"
    } else if d == 4 {
        "4"
    } else if d == 5 {
        "5"
    } else if d == 6 {
        "6"
    } else if d == 7 {
        "7"
    } else if d == 8 {
        "8"
    } else {
        "9"
    }
}

fn push_digits(out: &mut String, n: u64)
    ensures
        final(out)@ == old(out)@ + nat_digits(n as nat),
    decreases n,
{
    if n >= 10 {
        push_digits(out, n / 10);
    }
    out.append(digit_str(n % 10));
}

fn push_decimal(out: &mut String, n: i64)
    ensures
        final(out)@ == old(out)@ + decimal_text(n as int),
{
    if n < 0 {
        proof {
            reveal_strlit("-");
        }
        out.append("-");
        let magnitude: u64 = (0i128 - (n as i128)) as u64;
        push_digits(out, magnitude);
    } else {
        push_digits(out, n as u64);
    }
}

/// Returns the slug under which the market of the window `window_ts` is listed.
pub fn generate_slug(window_ts: i64) -> (slug: String)
    ensures
        slug@ == slug_text(window_ts as int),
{
    let mut slug = String::from_str("xrp-updown-5m-");
    push_decimal(&mut slug, window_ts);
    slug
}


/// Every window starts on a multiple of the window length, and the window that
/// `current_window_ts` picks for `now` holds `now`: `start <= now < start + 300`.
pub proof fn lemma_window_holds_now(now: int)
    ensures
        window_start(now) % 300 == 0,
        window_start(now) <= now < window_start(now) + 300,
{
    assert((now - now % 300) % 300 == 0) by (nonlinear_arith);
}

/// A time that starts a window is its own window start.
pub proof fn lemma_window_start_of_boundary(t: int)
    requires
        t % 300 == 0,
    ensures
        window_start(t) == t,
{
}

/// Asking again for the window of a window start gives the same window.
pub proof fn lemma_window_start_idempotent(now: int)
    ensures
        window_start(window_start(now)) == window_start(now),
{
    lemma_window_holds_now(now);
    lemma_window_start_of_boundary(window_start(now));
}

/// Windows follow each other without gap: the end of the window that holds
/// `now` is itself the start of a window.
pub proof fn lemma_window_end_starts_next(now: int)
    ensures
        window_start(window_start(now) + 300) == window_start(now) + 300,
{
    lemma_window_holds_now(now);
    let w = window_start(now);
    assert((w + 300) % 300 == 0) by (nonlinear_arith)
        requires w % 300 == 0;
    lemma_window_start_of_boundary(w + 300);
}

proof fn lemma_digit_char_injective(a: int, b: int)
    requires
        0 <= a < 10,
        0 <= b < 10,
        digit_char(a) == digit_char(b),
    ensures
        a == b,
{
}

proof fn lemma_nat_digits_shape(n: nat)
    ensures
        nat_digits(n).len() >= 1,
        n >= 10 ==> nat_digits(n).len() >= 2,
        '0' <= nat_digits(n)[0] <= '9',
    decreases n,
{
    if n >= 10 {
        lemma_nat_digits_shape(n / 10);
    }
}

proof fn lemma_nat_digits_injective(a: nat, b: nat)
    requires
        nat_digits(a) == nat_digits(b),
    ensures
        a == b,
    decreases a,
{
    lemma_nat_digits_shape(a);
    lemma_nat_digits_shape(b);
    if a < 10 && b < 10 {
        lemma_digit_char_injective(a as int, b as int);
    } else if a >= 10 && b >= 10 {
        let da = nat_digits(a);
        let db = nat_digits(b);
        assert(da.last() == digit_char((a % 10) as int));
        assert(db.last() == digit_char((b % 10) as int));
        lemma_digit_char_injective((a % 10) as int, (b % 10) as int);
        assert(da.drop_last() =~= nat_digits(a / 10));
        assert(db.drop_last() =~= nat_digits(b / 10));
        lemma_nat_digits_injective(a / 10, b / 10);
    } else {
        assert(nat_digits(a).len() == nat_digits(b).len());
    }
}

/// Distinct windows get distinct slugs: the slug names its window.
pub proof fn lemma_slug_names_window(a: int, b: int)
    requires
        slug_text(a) == slug_text(b),
    ensures
        a == b,
{
    let p = "xrp-updown-5m-"@;
    assert(decimal_text(a) =~= slug_text(a).skip(p.len() as int));
    assert(decimal_text(b) =~= slug_text(b).skip(p.len() as int));
    let da = decimal_text(a);
    let db = decimal_text(b);
    if a < 0 {
        lemma_nat_digits_shape((-a) as nat);
    } else {
        lemma_nat_digits_shape(a as nat);
    }
    if b < 0 {
        lemma_nat_digits_shape((-b) as nat);
    } else {
        lemma_nat_digits_shape(b as nat);
    }
    if a < 0 && b < 0 {
        assert(da.skip(1) =~= nat_digits((-a) as nat));
        assert(db.skip(1) =~= nat_digits((-b) as nat));
        lemma_nat_digits_injective((-a) as nat, (-b) as nat);
    } else if a >= 0 && b >= 0 {
        lemma_nat_digits_injective(a as nat, b as nat);
    } else {
        assert(da[0] != db[0]);
    }
}

} // verus!
