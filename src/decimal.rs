//! Fixed-point decimal amounts: a value is held as a count of millionths.
use vstd::prelude::*;

verus! {

/// Units in one whole: amounts are held in millionths.
pub const UNITS: i64 = 1_000_000;

/// Digits after the point that an amount keeps.
pub const FRACTION_DIGITS: usize = 6;

/// Most digits that the integer part of a decimal text may have.
pub const MAX_INT_DIGITS: usize = 12;

/// Bound on the magnitude of every parsed amount, in units.
pub const MAX_AMOUNT: i64 = 1_000_000_000_000_000_000;

pub open spec fn is_digit(c: char) -> bool {
    '0' <= c && c <= '9'
}

pub open spec fn digit_value(c: char) -> int {
    c as int - '0' as int
}

pub open spec fn all_digits(s: Seq<char>) -> bool {
    forall|i: int| 0 <= i < s.len() ==> is_digit(#[trigger] s[i])
}

/// The number that a string of decimal digits denotes.
pub open spec fn digits_value(s: Seq<char>) -> int
    decreases s.len(),
{
    if s.len() == 0 {
        0
    } else {
        digits_value(s.drop_last()) * 10 + digit_value(s.last())
    }
}

pub open spec fn pow10(n: nat) -> int
    decreases n,
{
    if n == 0 {
        1
    } else {
        10 * pow10((n - 1) as nat)
    }
}

/// Millionths denoted by the digits after the point: the first six count,
/// a shorter fraction is padded with zeros.
pub open spec fn fraction_units(f: Seq<char>) -> int {
    if f.len() >= 6 {
        digits_value(f.take(6))
    } else {
        digits_value(f) * pow10((6 - f.len()) as nat)
    }
}

/// `s` is an unsigned decimal whose integer part is `s[..p]`: one to twelve
/// digits, then either the end or a point followed by digits only.
pub open spec fn point_at(s: Seq<char>, p: int) -> bool {
    &&& 1 <= p <= s.len()
    &&& p <= MAX_INT_DIGITS
    &&& all_digits(s.take(p))
    &&& (p == s.len() || (s[p] == '.' && all_digits(s.skip(p + 1))))
}

pub open spec fn is_unsigned_decimal(s: Seq<char>) -> bool {
    exists|p: int| point_at(s, p)
}

/// Value, in units, of an unsigned decimal text.
pub open spec fn unsigned_units(s: Seq<char>) -> int {
    let p = choose|p: int| point_at(s, p);
    digits_value(s.take(p)) * 1_000_000 + fraction_units(fraction_part(s, p))
}

/// The digits after the point, when the integer part is `s[..p]`.
pub open spec fn fraction_part(s: Seq<char>, p: int) -> Seq<char> {
    if p < s.len() {
        s.skip(p + 1)
    } else {
        Seq::empty()
    }
}

/// Value, in units, of a decimal text with an optional sign (`-1.5`, `+3`,
/// `42.125`, `7.`); `None` when the text is no such decimal. The integer part
/// is required, so a leading point (`.5`) is refused, as are exponent forms
/// (`1e3`), `inf` and `NaN`, and integer parts of more than twelve digits.
/// Fraction digits past the sixth are dropped.
pub open spec fn decimal_units(s: Seq<char>) -> Option<int> {
    if s.len() > 0 && (s[0] == '-' || s[0] == '+') {
        let m = s.drop_first();
        if is_unsigned_decimal(m) {
            if s[0] == '-' {
                Some(-unsigned_units(m))
            } else {
                Some(unsigned_units(m))
            }
        } else {
            None
        }
    } else if is_unsigned_decimal(s) {
        Some(unsigned_units(s))
    } else {
        None
    }
}

pub open spec fn abs(x: int) -> int {
    if x < 0 {
        -x
    } else {
        x
    }
}

/// `part` as a percentage of `whole`, in units of a millionth of a percent,
/// truncated toward zero; zero when `whole` is zero.
pub open spec fn percent_of(part: int, whole: int) -> int {
    if whole == 0 {
        0
    } else {
        let q = (abs(part) * 100_000_000) / abs(whole);
        if (part < 0) == (whole < 0) {
            q
        } else {
            -q
        }
    }
}

pub proof fn lemma_pow10_positive(n: nat)
    ensures
        pow10(n) >= 1,
    decreases n,
{
    if n > 0 {
        lemma_pow10_positive((n - 1) as nat);
    }
}

/// Reads the digits `s[lo..hi]` as a number.
fn digits_number(s: &Vec<char>, lo: usize, hi: usize) -> (r: i64)
    requires
        lo <= hi <= s@.len(),
        hi - lo <= MAX_INT_DIGITS,
        all_digits(s@.subrange(lo as int, hi as int)),
    ensures
        r == digits_value(s@.subrange(lo as int, hi as int)),
        0 <= r < pow10((hi - lo) as nat),
{
    let mut v: i64 = 0;
    let mut i: usize = lo;
    while i < hi
        invariant
            lo <= i <= hi <= s@.len(),
            hi - lo <= MAX_INT_DIGITS,
            all_digits(s@.subrange(lo as int, hi as int)),
            v == digits_value(s@.subrange(lo as int, i as int)),
            0 <= v < pow10((i - lo) as nat),
        decreases hi - i,
    {
        let ghost prefix = s@.subrange(lo as int, i as int);
        let ghost next = s@.subrange(lo as int, i + 1);
        assert(next.drop_last() == prefix);
        assert(s@.subrange(lo as int, hi as int)[i - lo] == s@[i as int]);
        assert(is_digit(s@[i as int]));
        proof {
            lemma_pow10_positive((i - lo) as nat);
            assert(pow10((i + 1 - lo) as nat) == 10 * pow10((i - lo) as nat));
            lemma_pow10_le12((i + 1 - lo) as nat);
        }
        let d = (s[i] as u32 - '0' as u32) as i64;
        v = v * 10 + d;
        i = i + 1;
    }
    v
}

proof fn lemma_pow10_le12(n: nat)
    requires
        n <= 12,
    ensures
        pow10(n) <= 1_000_000_000_000,
    decreases 12 - n,
{
    if n < 12 {
        lemma_pow10_le12(n + 1);
        lemma_pow10_positive(n);
        assert(pow10(n + 1) == 10 * pow10(n));
    } else {
        reveal_with_fuel(pow10, 13);
    }
}

/// Any split of a decimal stands at the first character that is no digit.
proof fn lemma_point_at_first_non_digit(m: Seq<char>, k: int, p: int)
    requires
        0 <= k <= m.len(),
        all_digits(m.take(k)),
        k == m.len() || !is_digit(m[k]),
        point_at(m, p),
    ensures
        p == k,
{
    if p < k {
        assert(m.take(k)[p] == m[p]);
    } else if k < p {
        assert(m.take(p)[k] == m[k]);
    }
}

/// Index of the first character at or after `start` that is no digit.
fn scan_digits(s: &Vec<char>, start: usize) -> (i: usize)
    requires
        start <= s@.len(),
    ensures
        start <= i <= s@.len(),
        all_digits(s@.subrange(start as int, i as int)),
        i == s@.len() || !is_digit(s@[i as int]),
{
    let n = s.len();
    let mut i: usize = start;
    while i < n && '0' <= s[i] && s[i] <= '9'
        invariant
            start <= i <= n == s@.len(),
            all_digits(s@.subrange(start as int, i as int)),
        decreases n - i,
    {
        assert forall|j: int| 0 <= j < i + 1 - start implies is_digit(
            #[trigger] s@.subrange(start as int, i + 1)[j],
        ) by {
            if j < i - start {
                assert(s@.subrange(start as int, i + 1)[j] == s@.subrange(start as int, i as int)[j]);
            } else {
                assert(s@.subrange(start as int, i + 1)[j] == s@[i as int]);
            }
        }
        i = i + 1;
    }
    i
}

/// Units denoted by the fraction digits `s[from..]`.
fn fraction_number(s: &Vec<char>, from: usize) -> (r: i64)
    requires
        from <= s@.len(),
        all_digits(s@.skip(from as int)),
    ensures
        r == fraction_units(s@.skip(from as int)),
        0 <= r < 1_000_000,
{
    let n = s.len();
    let ghost f = s@.skip(from as int);
    let len_f = n - from;
    let keep: usize = if len_f >= FRACTION_DIGITS { FRACTION_DIGITS } else { len_f };
    assert(s@.subrange(from as int, from + keep) == f.take(keep as int));
    assert(all_digits(f.take(keep as int))) by {
        assert forall|t: int| 0 <= t < keep implies is_digit(#[trigger] f.take(keep as int)[t]) by {
            assert(f.take(keep as int)[t] == f[t]);
        }
    }
    assert(len_f < FRACTION_DIGITS ==> f.take(keep as int) == f);
    let mut frac = digits_number(s, from, from + keep);
    let ghost d = digits_value(f.take(keep as int));
    assert(frac == d * pow10(0)) by {
        reveal_with_fuel(pow10, 1);
    }
    let mut pad: usize = keep;
    while pad < FRACTION_DIGITS
        invariant
            keep <= pad <= FRACTION_DIGITS,
            frac == d * pow10((pad - keep) as nat),
            0 <= frac < pow10(pad as nat),
        decreases FRACTION_DIGITS - pad,
    {
        proof {
            let q = pow10((pad - keep) as nat);
            assert(pow10((pad + 1 - keep) as nat) == 10 * q);
            assert(pow10((pad + 1) as nat) == 10 * pow10(pad as nat));
            lemma_pow10_le12((pad + 1) as nat);
            assert(d * (10 * q) == 10 * (d * q)) by (nonlinear_arith);
        }
        frac = frac * 10;
        pad = pad + 1;
    }
    proof {
        lemma_pow10_le12(6);
        reveal_with_fuel(pow10, 7);
    }
    frac
}

/// Parses the unsigned decimal `s[start..]` into units.
#[verifier::loop_isolation(false)]
fn parse_unsigned(s: &Vec<char>, start: usize) -> (r: Option<i64>)
    requires
        start <= s@.len(),
    ensures
        r is Some <==> is_unsigned_decimal(s@.skip(start as int)),
        r is Some ==> r->0 as int == unsigned_units(s@.skip(start as int)),
        r is Some ==> 0 <= r->0 < MAX_AMOUNT,
{
    let n = s.len();
    let ghost m = s@.skip(start as int);
    let i = scan_digits(s, start);
    let ghost k = i - start;
    assert(m.take(k) == s@.subrange(start as int, i as int));
    assert(k < m.len() ==> m[k] == s@[i as int]);
    if i == start || i - start > MAX_INT_DIGITS || (i < n && s[i] != '.') {
        proof {
            if is_unsigned_decimal(m) {
                let p = choose|p: int| point_at(m, p);
                lemma_point_at_first_non_digit(m, k, p);
            }
        }
        return None;
    }
    let whole = digits_number(s, start, i);
    let mut frac: i64 = 0;
    if i < n {
        let mut j: usize = i + 1;
        while j < n
            invariant
                i + 1 <= j <= n == s@.len(),
                forall|t: int| i + 1 <= t < j ==> is_digit(#[trigger] s@[t]),
            decreases n - j,
        {
            if !('0' <= s[j] && s[j] <= '9') {
                proof {
                    if is_unsigned_decimal(m) {
                        let p = choose|p: int| point_at(m, p);
                        lemma_point_at_first_non_digit(m, k, p);
                        assert(m.skip(p + 1)[j - i - 1] == s@[j as int]);
                    }
                }
                return None;
            }
            j = j + 1;
        }
        assert(fraction_part(m, k) == s@.skip(i + 1));
        assert(all_digits(s@.skip(i + 1))) by {
            assert forall|t: int| 0 <= t < s@.skip(i + 1).len() implies is_digit(
                #[trigger] s@.skip(i + 1)[t],
            ) by {
                assert(s@.skip(i + 1)[t] == s@[i + 1 + t]);
            }
        }
        frac = fraction_number(s, i + 1);
        assert(point_at(m, k));
    } else {
        assert(point_at(m, k));
        assert(fraction_units(fraction_part(m, k)) == 0) by {
            assert(digits_value(Seq::<char>::empty()) == 0);
        }
    }
    proof {
        let p = choose|p: int| point_at(m, p);
        lemma_point_at_first_non_digit(m, k, p);
        lemma_pow10_le12(k as nat);
    }
    assert(0 <= whole * 1_000_000 <= 999_999_999_999_000_000) by (nonlinear_arith)
        requires
            0 <= whole < 1_000_000_000_000,
    ;
    Some(whole * UNITS + frac)
}

/// Parses a decimal text with an optional sign into units; `None` when the
/// text is not of that form.
pub fn parse_decimal(s: &Vec<char>) -> (r: Option<i64>)
    ensures
        r is Some <==> decimal_units(s@) is Some,
        r is Some ==> r->0 as int == decimal_units(s@)->0,
        r is Some ==> -MAX_AMOUNT < r->0 < MAX_AMOUNT,
{
    if s.len() > 0 && (s[0] == '-' || s[0] == '+') {
        assert(s@.skip(1) == s@.drop_first());
        match parse_unsigned(s, 1) {
            Some(v) => {
                if s[0] == '-' {
                    Some(-v)
                } else {
                    Some(v)
                }
            },
            None => None,
        }
    } else {
        assert(s@.skip(0) == s@);
        parse_unsigned(s, 0)
    }
}

/// `part` as a percentage of `whole`, in millionths of a percent, truncated
/// toward zero; zero when `whole` is zero.
pub fn percent(part: i64, whole: i64) -> (r: i128)
    ensures
        r as int == percent_of(part as int, whole as int),
{
    if whole == 0 {
        return 0;
    }
    let a: i128 = if part < 0 { -(part as i128) } else { part as i128 };
    let b: i128 = if whole < 0 { -(whole as i128) } else { whole as i128 };
    assert(0 <= a * 100_000_000 <= 1_000_000_000_000_000_000_000_000_000) by (nonlinear_arith)
        requires
            0 <= a <= 10_000_000_000_000_000_000,
    ;
    let q = (a * 100_000_000) / b;
    assert(0 <= q <= a * 100_000_000) by (nonlinear_arith)
        requires
            0 <= a * 100_000_000,
            b >= 1,
            q as int == (a * 100_000_000) as int / b as int,
    ;
    if (part < 0) == (whole < 0) {
        q
    } else {
        -q
    }
}

} // verus!
