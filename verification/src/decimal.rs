//! Reading decimal numbers (prices, sizes) into fixed-point micros.
use vstd::prelude::*;

verus! {

/// A decimal digit character.
pub open spec fn is_digit(c: char) -> bool {
    '0' <= c <= '9'
}

/// The value of a digit character.
pub open spec fn digit_val(c: char) -> int {
    c as int - '0' as int
}

/// Every character is a decimal digit.
pub open spec fn all_digits(s: Seq<char>) -> bool {
    forall|i: int| 0 <= i < s.len() ==> is_digit(#[trigger] s[i])
}

/// The number a string of digits writes.
pub open spec fn digits_value(s: Seq<char>) -> int
    decreases s.len(),
{
    if s.len() == 0 {
        0
    } else {
        digits_value(s.drop_last()) * 10 + digit_val(s.last())
    }
}

/// Ten to the power `n`.
pub open spec fn pow10(n: nat) -> int
    decreases n,
{
    if n == 0 { 1 } else { 10 * pow10((n - 1) as nat) }
}

/// The part before the first `.`, and the part after it when there is one.
pub open spec fn split_dot(s: Seq<char>) -> (Seq<char>, Option<Seq<char>>)
    decreases s.len(),
{
    if s.len() == 0 {
        (s, None)
    } else if s[0] == '.' {
        (Seq::empty(), Some(s.drop_first()))
    } else {
        let (a, b) = split_dot(s.drop_first());
        (seq![s[0]] + a, b)
    }
}

/// The first seven fractional digits, padded with zeros.
pub open spec fn pad7(f: Seq<char>) -> Seq<char> {
    Seq::new(7, |i: int| if i < f.len() { f[i] } else { '0' })
}

/// A fractional part in millionths, rounded half up on the seventh digit.
pub open spec fn frac_micros(f: Seq<char>) -> int {
    (digits_value(pad7(f)) + 5) / 10
}

/// The most integer digits read (values below a trillion).
pub const MAX_INT_DIGITS: usize = 12;

/// The fixed-point value of a decimal number `[+|-]digits[.digits]` with at
/// least one digit and at most [`MAX_INT_DIGITS`] before the point, rounded
/// to millionths (half away from zero); `None` for anything else.
pub open spec fn spec_parse_micros(s: Seq<char>) -> Option<i64> {
    let signed = s.len() > 0 && (s[0] == '-' || s[0] == '+');
    let neg = s.len() > 0 && s[0] == '-';
    let body = if signed { s.drop_first() } else { s };
    let (ip, fo) = split_dot(body);
    let f = match fo { Some(f) => f, None => Seq::<char>::empty() };
    if all_digits(ip) && all_digits(f) && ip.len() + f.len() > 0 && ip.len() <= MAX_INT_DIGITS {
        let v = digits_value(ip) * 1_000_000 + frac_micros(f);
        Some((if neg { -v } else { v }) as i64)
    } else {
        None
    }
}

proof fn lemma_digits_bound(s: Seq<char>)
    requires
        all_digits(s),
    ensures
        0 <= digits_value(s) < pow10(s.len()),
    decreases s.len(),
{
    if s.len() > 0 {
        let d = s.drop_last();
        assert(all_digits(d)) by {
            assert forall|i: int| 0 <= i < d.len() implies is_digit(#[trigger] d[i]) by {
                assert(d[i] == s[i]);
            }
        }
        lemma_digits_bound(d);
        assert(is_digit(s[s.len() - 1]));
        let v = digits_value(d);
        let p = pow10(d.len());
        let c = digit_val(s.last());
        assert(v * 10 + c < 10 * p) by (nonlinear_arith)
            requires 0 <= v < p, 0 <= c <= 9;
        assert(v * 10 + c >= 0) by (nonlinear_arith)
            requires 0 <= v, 0 <= c;
    }
}

proof fn lemma_split_dot(s: Seq<char>, j: int)
    requires
        0 <= j <= s.len(),
        forall|k: int| 0 <= k < j ==> s[k] != '.',
        j < s.len() ==> s[j] == '.',
    ensures
        split_dot(s).0 == s.subrange(0, j),
        j < s.len() ==> split_dot(s).1 == Some(s.subrange(j + 1, s.len() as int)),
        j == s.len() ==> split_dot(s).1 is None,
    decreases s.len(),
{
    if s.len() == 0 {
    } else if j == 0 {
        assert(s.drop_first() =~= s.subrange(1, s.len() as int));
        assert(s.subrange(0, 0) =~= Seq::<char>::empty());
    } else {
        let t = s.drop_first();
        assert forall|k: int| 0 <= k < j - 1 implies t[k] != '.' by {
            assert(t[k] == s[k + 1]);
        }
        lemma_split_dot(t, j - 1);
        assert(seq![s[0]] + t.subrange(0, j - 1) =~= s.subrange(0, j));
        if j < s.len() {
            assert(t.subrange(j, t.len() as int) =~= s.subrange(j + 1, s.len() as int));
        }
    }
}

fn digit_value_of(c: char) -> (d: i64)
    requires
        is_digit(c),
    ensures
        d == digit_val(c),
{
    (c as u32 - '0' as u32) as i64
}

/// The value of `s[from..to]`, all digits, at most twelve of them.
fn value_of_digits(s: &Vec<char>, from: usize, to: usize) -> (v: i64)
    requires
        from <= to <= s@.len(),
        to - from <= 12,
        all_digits(s@.subrange(from as int, to as int)),
    ensures
        v == digits_value(s@.subrange(from as int, to as int)),
        0 <= v < 1_000_000_000_000,
{
    let mut v: i64 = 0;
    let mut k: usize = from;
    proof {
        lemma_digits_bound(s@.subrange(from as int, to as int));
        assert(pow10(12) == 1_000_000_000_000) by {
            reveal_with_fuel(pow10, 13);
        }
        lemma_pow10_mono((to - from) as nat, 12);
    }
    while k < to
        invariant
            from <= k <= to <= s@.len(),
            to - from <= 12,
            all_digits(s@.subrange(from as int, to as int)),
            v == digits_value(s@.subrange(from as int, k as int)),
            0 <= v < pow10((k - from) as nat),
            pow10((to - from) as nat) <= 1_000_000_000_000,
        decreases to - k,
    {
        let ghost sub = s@.subrange(from as int, to as int);
        assert(is_digit(sub[k - from]));
        assert(sub[k - from] == s@[k as int]);
        let d = digit_value_of(s[k]);
        proof {
            lemma_pow10_mono((k + 1 - from) as nat, (to - from) as nat);
            let p = pow10((k - from) as nat);
            assert(pow10((k + 1 - from) as nat) == 10 * p);
            assert(v * 10 + d < 10 * p) by (nonlinear_arith)
                requires 0 <= v < p, 0 <= d <= 9;
            assert(s@.subrange(from as int, k + 1).drop_last() =~= s@.subrange(from as int, k as int));
        }
        v = v * 10 + d;
        k = k + 1;
    }
    v
}

proof fn lemma_pow10_mono(a: nat, b: nat)
    requires
        a <= b,
    ensures
        1 <= pow10(a) <= pow10(b),
    decreases b,
{
    if a < b {
        lemma_pow10_mono(a, (b - 1) as nat);
    } else if b > 0 {
        lemma_pow10_mono(0, (b - 1) as nat);
    }
}

/// Reads a decimal number into micros (see [`spec_parse_micros`]).
#[verifier::loop_isolation(false)]
pub fn parse_micros(s: &str) -> (r: Option<i64>)
    ensures
        r == spec_parse_micros(s@),
{
    let cs = crate::text::chars_of(s);
    let n = cs.len();
    let signed = n > 0 && (cs[0] == '-' || cs[0] == '+');
    let neg = n > 0 && cs[0] == '-';
    let start: usize = if signed { 1 } else { 0 };
    let ghost body = if signed { s@.drop_first() } else { s@ };
    assert(body =~= cs@.subrange(start as int, n as int));
    // find the first '.'
    let mut j: usize = start;
    while j < n && cs[j] != '.'
        invariant
            start <= j <= n,
            n == cs@.len(),
            forall|k: int| start <= k < j ==> cs@[k] != '.',
        decreases n - j,
    {
        j = j + 1;
    }
    proof {
        assert forall|k: int| 0 <= k < j - start implies body[k] != '.' by {
            assert(body[k] == cs@[start + k]);
        }
        if j < n {
            assert(body[j - start] == cs@[j as int]);
        }
        lemma_split_dot(body, (j - start) as int);
        assert(body.subrange(0, (j - start) as int) =~= cs@.subrange(start as int, j as int));
        if j < n {
            assert(body.subrange((j - start) + 1, body.len() as int) =~= cs@.subrange(j + 1, n as int));
        }
    }
    let fstart: usize = if j < n { j + 1 } else { n };
    let ghost ip = cs@.subrange(start as int, j as int);
    let ghost f = cs@.subrange(fstart as int, n as int);
    assert(f =~= (match split_dot(body).1 { Some(x) => x, None => Seq::<char>::empty() }));
    assert(ip == split_dot(body).0);
    assert(body == (if s@.len() > 0 && (s@[0] == '-' || s@[0] == '+') { s@.drop_first() } else { s@ }));
    // check digits
    let mut k: usize = start;
    while k < j
        invariant
            start <= k <= j <= n,
            n == cs@.len(),
            ip == cs@.subrange(start as int, j as int),
            forall|m: int| start <= m < k ==> is_digit(cs@[m]),
        decreases j - k,
    {
        if !('0' <= cs[k] && cs[k] <= '9') {
            assert(!all_digits(ip)) by {
                assert(ip[k - start] == cs@[k as int]);
            }
            return None;
        }
        k = k + 1;
    }
    assert(all_digits(ip)) by {
        assert forall|m: int| 0 <= m < ip.len() implies is_digit(#[trigger] ip[m]) by {
            assert(ip[m] == cs@[start + m]);
        }
    }
    let mut k: usize = fstart;
    while k < n
        invariant
            fstart <= k <= n,
            n == cs@.len(),
            f == cs@.subrange(fstart as int, n as int),
            forall|m: int| fstart <= m < k ==> is_digit(cs@[m]),
        decreases n - k,
    {
        if !('0' <= cs[k] && cs[k] <= '9') {
            assert(!all_digits(f)) by {
                assert(f[k - fstart] == cs@[k as int]);
            }
            return None;
        }
        k = k + 1;
    }
    assert(all_digits(f)) by {
        assert forall|m: int| 0 <= m < f.len() implies is_digit(#[trigger] f[m]) by {
            assert(f[m] == cs@[fstart + m]);
        }
    }
    if j - start + (n - fstart) == 0 || j - start > MAX_INT_DIGITS {
        return None;
    }
    let iv = value_of_digits(&cs, start, j);
    // the seven padded fractional digits
    let mut p: Vec<char> = Vec::new();
    let mut m: usize = 0;
    while m < 7
        invariant
            m <= 7,
            fstart <= n,
            n == cs@.len(),
            f == cs@.subrange(fstart as int, n as int),
            p@ == pad7(f).subrange(0, m as int),
        decreases 7 - m,
    {
        if m < n - fstart {
            p.push(cs[fstart + m]);
        } else {
            p.push('0');
        }
        m = m + 1;
        assert(p@ =~= pad7(f).subrange(0, m as int));
    }
    assert(p@ =~= pad7(f));
    assert(all_digits(p@)) by {
        assert forall|i: int| 0 <= i < p@.len() implies is_digit(#[trigger] p@[i]) by {
            if i < f.len() {
                assert(p@[i] == f[i]);
            }
        }
    }
    assert(p@.subrange(0, 7) =~= p@);
    let fv = value_of_digits(&p, 0, 7);
    proof {
        lemma_digits_bound(p@);
        assert(pow10(7) == 10_000_000) by {
            reveal_with_fuel(pow10, 8);
        }
    }
    let frac = (fv + 5) / 10;
    let v = iv * 1_000_000 + frac;
    if neg { Some(0 - v) } else { Some(v) }
}

} // verus!
