//! Scale-factor resolution.
//!
//! Scale factors are carried as fixed-point integers in milli units
//! (1000 = factor one).  The environment override arrives as text of the
//! form `digits` or `digits.digits` and is parsed exactly: the value is
//! truncated to milli resolution, and only positive values that fit in
//! `u32` count as an override.
//!
//! Precedence: a scale factor already set programmatically on the runtime
//! (strictly above one) wins; otherwise a parsable environment override
//! wins; otherwise the platform-reported factor is used.

use vstd::prelude::*;

verus! {

pub open spec fn is_ascii_digit(c: char) -> bool {
    48 <= c as u32 <= 57
}

pub open spec fn digit_value(c: char) -> int {
    c as u32 - 48
}

pub open spec fn all_digits(s: Seq<char>) -> bool {
    forall|i: int| 0 <= i < s.len() ==> is_ascii_digit(#[trigger] s[i])
}

/// The number a run of decimal digits denotes.
pub open spec fn digits_value(s: Seq<char>) -> int
    decreases s.len(),
{
    if s.len() == 0 {
        0
    } else {
        digits_value(s.drop_last()) * 10 + digit_value(s.last())
    }
}

pub open spec fn spec_pow10(n: int) -> int {
    if n <= 0 {
        1
    } else if n == 1 {
        10
    } else if n == 2 {
        100
    } else {
        1000
    }
}

/// What a fraction part is worth in milli units: its first three digits,
/// scaled so that one fractional digit is worth hundreds, two are worth
/// tens, three are worth ones.  Digits past the third are truncated away.
pub open spec fn frac_millis(f: Seq<char>) -> int {
    let t = if f.len() <= 3 {
        f
    } else {
        f.take(3)
    };
    digits_value(t) * spec_pow10(3 - t.len())
}

/// Position `i` splits the text into a non-empty run of digits, a dot,
/// and a non-empty run of digits.
pub open spec fn valid_dotted_split(s: Seq<char>, i: int) -> bool {
    &&& 1 <= i
    &&& i + 1 < s.len()
    &&& s[i] == '.'
    &&& all_digits(s.take(i))
    &&& all_digits(s.skip(i + 1))
}

/// What the text denotes in milli units, when it has the form `digits`
/// or `digits.digits`.
pub open spec fn spec_text_millis(s: Seq<char>) -> Option<int> {
    if s.len() > 0 && all_digits(s) {
        Some(digits_value(s) * 1000)
    } else if exists|i: int| valid_dotted_split(s, i) {
        let i = choose|i: int| valid_dotted_split(s, i);
        Some(digits_value(s.take(i)) * 1000 + frac_millis(s.skip(i + 1)))
    } else {
        None
    }
}

/// What parsing a scale-factor override yields: the denoted milli value
/// when the text is well-formed, positive and fits in `u32`; nothing
/// otherwise.
pub open spec fn spec_parse_scale_milli(s: Seq<char>) -> Option<u32> {
    match spec_text_millis(s) {
        Some(v) => if 0 < v <= u32::MAX {
            Some(v as u32)
        } else {
            None
        },
        None => None,
    }
}

/// A run of digits denotes a non-negative number.
proof fn lemma_digits_value_nonneg(s: Seq<char>)
    requires
        all_digits(s),
    ensures
        digits_value(s) >= 0,
    decreases s.len(),
{
    if s.len() > 0 {
        assert(all_digits(s.drop_last())) by {
            assert forall|i: int| 0 <= i < s.len() - 1 implies is_ascii_digit(
                #[trigger] s.drop_last()[i],
            ) by {
                assert(s.drop_last()[i] == s[i]);
            }
        }
        lemma_digits_value_nonneg(s.drop_last());
        assert(is_ascii_digit(s.last()));
    }
}

/// Dropping trailing digits can only shrink the denoted number.
proof fn lemma_digits_value_take(s: Seq<char>, i: int)
    requires
        all_digits(s),
        0 <= i <= s.len(),
    ensures
        digits_value(s.take(i)) <= digits_value(s),
    decreases s.len() - i,
{
    assert(all_digits(s.take(i))) by {
        assert forall|j: int| 0 <= j < i implies is_ascii_digit(#[trigger] s.take(i)[j]) by {
            assert(s.take(i)[j] == s[j]);
        }
    }
    if i == s.len() {
        assert(s.take(i) =~= s);
    } else {
        assert(s.take(i + 1).drop_last() =~= s.take(i));
        assert(s.take(i + 1).last() == s[i]);
        assert(digits_value(s.take(i + 1)) == digits_value(s.take(i)) * 10 + digit_value(s[i]));
        lemma_digits_value_nonneg(s.take(i));
        assert(is_ascii_digit(s[i]));
        lemma_digits_value_take(s, i + 1);
    }
}

/// A text admits at most one dotted split.
proof fn lemma_split_unique(s: Seq<char>, i: int, j: int)
    requires
        valid_dotted_split(s, i),
        valid_dotted_split(s, j),
    ensures
        i == j,
{
    if i < j {
        assert(s.take(j)[i] == s[i]);
        assert(is_ascii_digit(s[i]));
    } else if j < i {
        assert(s.take(i)[j] == s[j]);
        assert(is_ascii_digit(s[j]));
    }
}

/// Finds the end of the run of digits starting at `from`.
fn scan_digits(text: &str, from: usize) -> (r: usize)
    requires
        from <= text@.len(),
    ensures
        from <= r <= text@.len(),
        forall|j: int| from <= j < r ==> is_ascii_digit(#[trigger] text@[j]),
        r < text@.len() ==> !is_ascii_digit(text@[r as int]),
{
    let n = text.unicode_len();
    let mut i: usize = from;
    while i < n
        invariant
            from <= i <= n,
            n == text@.len(),
            forall|j: int| from <= j < i ==> is_ascii_digit(#[trigger] text@[j]),
        decreases n - i,
    {
        let c = text.get_char(i);
        let u = c as u32;
        if u < 48 || u > 57 {
            return i;
        }
        i += 1;
    }
    n
}

/// Accumulates the number denoted by the digits in `[from, to)`.
/// The flag reports that the number exceeds `u32::MAX`; the value is
/// exact whenever the flag is clear.
fn accumulate_digits(text: &str, from: usize, to: usize) -> (r: (u64, bool))
    requires
        from <= to <= text@.len(),
        forall|j: int| from <= j < to ==> is_ascii_digit(#[trigger] text@[j]),
    ensures
        !r.1 ==> r.0 == digits_value(text@.subrange(from as int, to as int)) && r.0 <= u32::MAX,
        r.1 ==> digits_value(text@.subrange(from as int, to as int)) > u32::MAX,
{
    let ghost s = text@;
    let mut acc: u64 = 0;
    let mut over: bool = false;
    let mut i: usize = from;
    while i < to
        invariant
            from <= i <= to <= s.len(),
            s == text@,
            forall|j: int| from <= j < to ==> is_ascii_digit(#[trigger] s[j]),
            !over ==> acc == digits_value(s.subrange(from as int, i as int)) && acc <= u32::MAX,
            over ==> digits_value(s.subrange(from as int, i as int)) > u32::MAX,
        decreases to - i,
    {
        let ghost prefix = s.subrange(from as int, i as int);
        let ghost next_prefix = s.subrange(from as int, i + 1);
        proof {
            assert(next_prefix.drop_last() =~= prefix);
            assert(next_prefix.last() == s[i as int]);
            assert(digits_value(next_prefix) == digits_value(prefix) * 10 + digit_value(
                s[i as int],
            ));
            assert(all_digits(prefix)) by {
                assert forall|j: int| 0 <= j < prefix.len() implies is_ascii_digit(
                    #[trigger] prefix[j],
                ) by {
                    assert(prefix[j] == s[from + j]);
                }
            }
            lemma_digits_value_nonneg(prefix);
        }
        let c = text.get_char(i);
        let d: u64 = (c as u32 - 48) as u64;
        proof {
            assert(is_ascii_digit(s[i as int]));
            assert(d == digit_value(s[i as int]));
        }
        if !over {
            let next: u64 = acc * 10 + d;
            if next > u32::MAX as u64 {
                over = true;
            } else {
                acc = next;
            }
        }
        i += 1;
    }
    (acc, over)
}

/// Parses a scale-factor override of the form `digits` or `digits.digits`
/// into milli units, truncating past the third fractional digit.
/// Yields nothing when the text is malformed, when the value is zero, or
/// when it does not fit in `u32`.
pub fn parse_scale_milli(text: &str) -> (r: Option<u32>)
    ensures
        r == spec_parse_scale_milli(text@),
{
    let ghost s = text@;
    let n = text.unicode_len();
    let d1 = scan_digits(text, 0);
    if d1 == 0 {
        proof {
            if s.len() > 0 {
                assert(!is_ascii_digit(s[0]));
            }
            assert forall|i: int| !valid_dotted_split(s, i) by {
                if valid_dotted_split(s, i) {
                    assert(s.take(i)[0] == s[0]);
                    assert(is_ascii_digit(s[0]));
                }
            }
        }
        return None;
    }
    let (acc, over) = accumulate_digits(text, 0, d1);
    if d1 == n {
        proof {
            assert(s.subrange(0, n as int) =~= s);
            assert(all_digits(s));
            if over {
                assert(digits_value(s) * 1000 > u32::MAX) by {
                    lemma_digits_value_nonneg(s);
                }
            }
        }
        if over {
            return None;
        }
        let total: u64 = acc * 1000;
        if total == 0 || total > u32::MAX as u64 {
            return None;
        }
        return Some(total as u32);
    }
    // A non-digit follows the integer part.
    proof {
        assert(!is_ascii_digit(s[d1 as int]));
        assert(!all_digits(s));
    }
    let c = text.get_char(d1);
    if c != '.' {
        proof {
            lemma_no_split_when_dot_missing(s, d1 as int);
        }
        return None;
    }
    if d1 + 1 >= n {
        proof {
            assert forall|i: int| !valid_dotted_split(s, i) by {
                if valid_dotted_split(s, i) {
                    split_position_is_scan_end(s, i, d1 as int);
                }
            }
        }
        return None;
    }
    let d2 = scan_digits(text, d1 + 1);
    if d2 < n {
        proof {
            assert forall|i: int| !valid_dotted_split(s, i) by {
                if valid_dotted_split(s, i) {
                    split_position_is_scan_end(s, i, d1 as int);
                    assert(s.skip(d1 + 1)[d2 - (d1 + 1)] == s[d2 as int]);
                    assert(is_ascii_digit(s[d2 as int]));
                }
            }
        }
        return None;
    }
    // The text splits at `d1`: digits, a dot, then digits to the end.
    let ghost ip = s.take(d1 as int);
    let ghost fp = s.skip(d1 + 1);
    proof {
        assert(all_digits(ip)) by {
            assert forall|j: int| 0 <= j < ip.len() implies is_ascii_digit(#[trigger] ip[j]) by {
                assert(ip[j] == s[j]);
            }
        }
        assert(all_digits(fp)) by {
            assert forall|j: int| 0 <= j < fp.len() implies is_ascii_digit(#[trigger] fp[j]) by {
                assert(fp[j] == s[d1 + 1 + j]);
            }
        }
        assert(valid_dotted_split(s, d1 as int));
        let i0 = choose|i: int| valid_dotted_split(s, i);
        lemma_split_unique(s, i0, d1 as int);
        assert(spec_text_millis(s) == Some(
            digits_value(ip) * 1000 + frac_millis(fp),
        ));
        assert(ip =~= s.subrange(0, d1 as int));
    }
    let fcount = n - (d1 + 1);
    let ftake: usize = if fcount > 3 {
        3
    } else {
        fcount
    };
    let (facc, fover) = accumulate_digits(text, d1 + 1, d1 + 1 + ftake);
    proof {
        let t = if fp.len() <= 3 {
            fp
        } else {
            fp.take(3)
        };
        assert(t =~= s.subrange(d1 + 1, d1 + 1 + ftake));
        assert(t.len() == ftake);
        lemma_digits_value_take(fp, if fp.len() <= 3 {
            fp.len() as int
        } else {
            3
        });
        lemma_digits_value_nonneg(t);
        assert(digits_value(t) < spec_pow10(t.len() as int)) by {
            lemma_digits_value_bound(t);
        }
        assert(!fover);
        assert(facc == digits_value(t));
    }
    let weight: u64 = if ftake == 1 {
        100
    } else if ftake == 2 {
        10
    } else {
        1
    };
    let frac: u64 = facc * weight;
    proof {
        assert(frac == frac_millis(fp));
        assert(frac <= 999);
        if over {
            lemma_digits_value_nonneg(ip);
            assert(digits_value(ip) * 1000 + frac_millis(fp) > u32::MAX);
        }
    }
    if over {
        return None;
    }
    let total: u64 = acc * 1000 + frac;
    if total == 0 || total > u32::MAX as u64 {
        return None;
    }
    Some(total as u32)
}

/// With a non-dot, non-digit character at the end of the leading digit
/// run, no dotted split exists.
proof fn lemma_no_split_when_dot_missing(s: Seq<char>, d1: int)
    requires
        0 <= d1 < s.len(),
        !is_ascii_digit(s[d1]),
        s[d1] != '.',
        forall|j: int| 0 <= j < d1 ==> is_ascii_digit(#[trigger] s[j]),
    ensures
        forall|i: int| !valid_dotted_split(s, i),
{
    assert forall|i: int| !valid_dotted_split(s, i) by {
        if valid_dotted_split(s, i) {
            split_position_is_scan_end(s, i, d1);
        }
    }
}

/// Any valid split must sit exactly where the leading digit run ends.
proof fn split_position_is_scan_end(s: Seq<char>, i: int, d1: int)
    requires
        valid_dotted_split(s, i),
        0 <= d1 < s.len(),
        !is_ascii_digit(s[d1]),
        forall|j: int| 0 <= j < d1 ==> is_ascii_digit(#[trigger] s[j]),
    ensures
        i == d1,
        s[d1] == '.',
{
    if i < d1 {
        assert(is_ascii_digit(s[i]));
        assert(s[i] == '.');
    } else if i > d1 {
        assert(s.take(i)[d1] == s[d1]);
        assert(is_ascii_digit(s[d1]));
    }
}

/// A run of `k` digits denotes less than `10^k` (for `k` up to three).
proof fn lemma_digits_value_bound(t: Seq<char>)
    requires
        all_digits(t),
        t.len() <= 3,
    ensures
        digits_value(t) < spec_pow10(t.len() as int),
    decreases t.len(),
{
    if t.len() > 0 {
        assert(all_digits(t.drop_last())) by {
            assert forall|i: int| 0 <= i < t.len() - 1 implies is_ascii_digit(
                #[trigger] t.drop_last()[i],
            ) by {
                assert(t.drop_last()[i] == t[i]);
            }
        }
        lemma_digits_value_bound(t.drop_last());
        assert(is_ascii_digit(t.last()));
        assert(digit_value(t.last()) <= 9);
    }
}

/// What the scale-factor override resolves to: a programmatic factor
/// strictly above one wins; otherwise the environment text decides.
pub open spec fn spec_scale_override(runtime_milli: u32, env: Option<Seq<char>>) -> Option<u32> {
    if runtime_milli > 1000 {
        Some(runtime_milli)
    } else {
        match env {
            Some(t) => spec_parse_scale_milli(t),
            None => None,
        }
    }
}

/// Resolves the scale-factor override from the programmatic factor and
/// the raw environment text.
pub fn resolve_scale_override(runtime_milli: u32, env: Option<&str>) -> (r: Option<u32>)
    ensures
        r == spec_scale_override(
            runtime_milli,
            match env {
                Some(t) => Some(t@),
                None => None,
            },
        ),
{
    if runtime_milli > 1000 {
        Some(runtime_milli)
    } else {
        match env {
            Some(t) => parse_scale_milli(t),
            None => None,
        }
    }
}

/// What the window ends up using: the override when there is one, the
/// platform-reported factor otherwise.
pub open spec fn spec_effective_scale(override_milli: Option<u32>, platform_milli: u32) -> u32 {
    match override_milli {
        Some(v) => v,
        None => platform_milli,
    }
}

/// Chooses the scale factor the mapped window uses.
pub fn effective_scale(override_milli: Option<u32>, platform_milli: u32) -> (r: u32)
    ensures
        r == spec_effective_scale(override_milli, platform_milli),
{
    match override_milli {
        Some(v) => v,
        None => platform_milli,
    }
}

/// Scale-factor precedence, end to end: a programmatic factor strictly
/// above one is used as is and the environment is ignored; otherwise a
/// well-formed positive environment override is used; otherwise the
/// platform-reported factor is used.
pub proof fn lemma_scale_factor_precedence(
    runtime_milli: u32,
    env: Option<Seq<char>>,
    platform_milli: u32,
)
    ensures
        runtime_milli > 1000 ==> spec_effective_scale(
            spec_scale_override(runtime_milli, env),
            platform_milli,
        ) == runtime_milli,
        runtime_milli <= 1000 ==> (env matches Some(t) ==> (spec_parse_scale_milli(t)
            matches Some(v) ==> spec_effective_scale(
            spec_scale_override(runtime_milli, env),
            platform_milli,
        ) == v)),
        runtime_milli <= 1000 && env is None ==> spec_effective_scale(
            spec_scale_override(runtime_milli, env),
            platform_milli,
        ) == platform_milli,
        runtime_milli <= 1000 ==> (env matches Some(t) ==> (spec_parse_scale_milli(t) is None
            ==> spec_effective_scale(spec_scale_override(runtime_milli, env), platform_milli)
            == platform_milli)),
{
}

} // verus!
