//! Character-level helpers: decimal and fixed-point formatting, substring
//! search, and the std string conversions the strategy relies on.
use vstd::prelude::*;

verus! {

/// The decimal digit character of `d` (`0 <= d < 10`).
pub open spec fn digit_char(d: int) -> char {
    if d == 0 { '0' }
    else if d == 1 { '1' }
    else if d == 2 { '2' }
    else if d == 3 { '3' }
    else if d == 4 { '4' }
    else if d == 5 { '5' }
    else if d == 6 { '6' }
    else if d == 7 { '7' }
    else if d == 8 { '8' }
    else { '9' }
}

/// The decimal representation of a natural number, without leading zeros.
pub open spec fn dec_nat(n: nat) -> Seq<char>
    decreases n,
{
    if n < 10 {
        seq![digit_char(n as int)]
    } else {
        dec_nat(n / 10).push(digit_char((n % 10) as int))
    }
}

/// The decimal representation of an integer, with a leading `-` when it is
/// negative, as `Display` writes it.
pub open spec fn dec_int(n: int) -> Seq<char> {
    if n < 0 {
        seq!['-'] + dec_nat((-n) as nat)
    } else {
        dec_nat(n as nat)
    }
}

/// `needle` occurs in `hay` at position `i`.
pub open spec fn occurs_at(hay: Seq<char>, needle: Seq<char>, i: int) -> bool {
    0 <= i && i + needle.len() <= hay.len() && hay.subrange(i, i + needle.len()) == needle
}

/// `needle` occurs somewhere in `hay`, as `str::contains` decides.
pub open spec fn contains_seq(hay: Seq<char>, needle: Seq<char>) -> bool {
    exists|i: int| occurs_at(hay, needle, i)
}

/// What `str::to_lowercase` returns for a string.
pub uninterp spec fn str_lowercase(s: Seq<char>) -> Seq<char>;

/// What `str::to_uppercase` returns for a string.
pub uninterp spec fn str_uppercase(s: Seq<char>) -> Seq<char>;

/// `s` with every occurrence of a non-empty `from` replaced by `to`,
/// scanning left to right and resuming after each replaced occurrence, as
/// `str::replace` does.
pub open spec fn replaced(s: Seq<char>, from: Seq<char>, to: Seq<char>) -> Seq<char>
    decreases s.len(),
{
    if from.len() == 0 || s.len() < from.len() {
        s
    } else if s.subrange(0, from.len() as int) == from {
        to + replaced(s.subrange(from.len() as int, s.len() as int), from, to)
    } else {
        seq![s[0]] + replaced(s.subrange(1, s.len() as int), from, to)
    }
}

/// Calls `str::to_lowercase` (std, Unicode lowercase mapping); its result is
/// a function of the string alone, named [`str_lowercase`].
#[verifier::external_body]
pub(crate) fn lowercase(s: &str) -> (r: String)
    ensures
        r@ == str_lowercase(s@),
{
    s.to_lowercase()
}

/// Calls `str::to_uppercase` (std, Unicode uppercase mapping); its result is
/// a function of the string alone, named [`str_uppercase`].
#[verifier::external_body]
pub(crate) fn uppercase(s: &str) -> (r: String)
    ensures
        r@ == str_uppercase(s@),
{
    s.to_uppercase()
}

/// Calls `String::push` (std), which appends one character.
#[verifier::external_body]
pub(crate) fn push_char(s: &mut String, c: char)
    ensures
        final(s)@ == old(s)@.push(c),
{
    s.push(c)
}

/// The characters of a string.
pub fn chars_of(s: &str) -> (v: Vec<char>)
    ensures
        v@ == s@,
{
    let n = s.unicode_len();
    let mut v: Vec<char> = Vec::new();
    let mut i: usize = 0;
    while i < n
        invariant
            n == s@.len(),
            i <= n,
            v@ == s@.subrange(0, i as int),
        decreases n - i,
    {
        let c = s.get_char(i);
        v.push(c);
        i = i + 1;
        assert(v@ =~= s@.subrange(0, i as int));
    }
    assert(v@ =~= s@);
    v
}

/// Appends characters to a string.
pub fn push_chars(s: &mut String, v: &Vec<char>)
    ensures
        final(s)@ == old(s)@ + v@,
{
    let mut i: usize = 0;
    while i < v.len()
        invariant
            i <= v.len(),
            s@ == old(s)@ + v@.subrange(0, i as int),
        decreases v.len() - i,
    {
        push_char(s, v[i]);
        i = i + 1;
        assert(s@ =~= old(s)@ + v@.subrange(0, i as int));
    }
    assert(v@.subrange(0, v.len() as int) =~= v@);
}

/// A string made of the given characters.
pub fn string_of(v: &Vec<char>) -> (s: String)
    ensures
        s@ == v@,
{
    let mut s = String::new();
    push_chars(&mut s, v);
    assert(s@ =~= v@);
    s
}

fn digit_of(d: u64) -> (c: char)
    requires
        d < 10,
    ensures
        c == digit_char(d as int),
{
    if d == 0 { '0' }
    else if d == 1 { '1' }
    else if d == 2 { '2' }
    else if d == 3 { '3' }
    else if d == 4 { '4' }
    else if d == 5 { '5' }
    else if d == 6 { '6' }
    else if d == 7 { '7' }
    else if d == 8 { '8' }
    else { '9' }
}

/// The decimal digits of a natural number.
pub fn dec_u64(n: u64) -> (v: Vec<char>)
    ensures
        v@ == dec_nat(n as nat),
    decreases n,
{
    if n < 10 {
        let mut v = Vec::new();
        v.push(digit_of(n));
        assert(v@ =~= dec_nat(n as nat));
        v
    } else {
        let mut v = dec_u64(n / 10);
        v.push(digit_of(n % 10));
        v
    }
}

/// The decimal representation of a signed integer, as `Display` writes it.
pub fn dec_i64(n: i64) -> (v: Vec<char>)
    ensures
        v@ == dec_int(n as int),
{
    if n < 0 {
        let m: u64 = (0i128 - (n as i128)) as u64;
        let mut v = Vec::new();
        v.push('-');
        let d = dec_u64(m);
        let mut i: usize = 0;
        while i < d.len()
            invariant
                i <= d.len(),
                v@ == seq!['-'] + d@.subrange(0, i as int),
            decreases d.len() - i,
        {
            v.push(d[i]);
            i = i + 1;
            assert(v@ =~= seq!['-'] + d@.subrange(0, i as int));
        }
        assert(d@.subrange(0, d.len() as int) =~= d@);
        v
    } else {
        dec_u64(n as u64)
    }
}

/// Whether `needle` occurs in `hay`.
pub fn contains_chars(hay: &Vec<char>, needle: &Vec<char>) -> (r: bool)
    ensures
        r == contains_seq(hay@, needle@),
{
    let n = needle.len();
    if n > hay.len() {
        assert forall|i: int| !occurs_at(hay@, needle@, i) by {}
        return false;
    }
    let mut i: usize = 0;
    while i <= hay.len() - n
        invariant
            n == needle.len(),
            n <= hay.len(),
            i <= hay.len() - n + 1,
            forall|k: int| 0 <= k < i ==> !occurs_at(hay@, needle@, k),
        decreases hay.len() - i,
    {
        let mut j: usize = 0;
        let mut same = true;
        while j < n
            invariant
                n == needle.len(),
                i + n <= hay.len(),
                j <= n,
                same == (forall|k: int| 0 <= k < j ==> hay@[i + k] == needle@[k]),
            decreases n - j,
        {
            if hay[i + j] != needle[j] {
                same = false;
            }
            j = j + 1;
        }
        if same {
            assert(hay@.subrange(i as int, i + n) =~= needle@);
            assert(occurs_at(hay@, needle@, i as int));
            return true;
        }
        assert(!occurs_at(hay@, needle@, i as int)) by {
            if occurs_at(hay@, needle@, i as int) {
                let k = choose|k: int| 0 <= k < n && hay@[i + k] != needle@[k];
                assert(hay@.subrange(i as int, i + n)[k] == hay@[i + k]);
            }
        }
        i = i + 1;
    }
    assert forall|k: int| !occurs_at(hay@, needle@, k) by {
        if occurs_at(hay@, needle@, k) {
            assert(k < i);
        }
    }
    false
}

/// Whether `needle` occurs in `hay`, as `str::contains` decides.
pub fn str_contains(hay: &str, needle: &str) -> (r: bool)
    ensures
        r == contains_seq(hay@, needle@),
{
    let h = chars_of(hay);
    let n = chars_of(needle);
    contains_chars(&h, &n)
}

/// Whether `s` begins with `prefix`, as `str::starts_with` decides.
pub fn str_starts_with(s: &str, prefix: &str) -> (r: bool)
    ensures
        r == prefix@.is_prefix_of(s@),
{
    let a = chars_of(s);
    let b = chars_of(prefix);
    if b.len() > a.len() {
        return false;
    }
    let mut j: usize = 0;
    while j < b.len()
        invariant
            b.len() <= a.len(),
            a@ == s@,
            b@ == prefix@,
            j <= b.len(),
            forall|k: int| 0 <= k < j ==> a@[k] == b@[k],
        decreases b.len() - j,
    {
        if a[j] != b[j] {
            assert(a@.subrange(0, b@.len() as int)[j as int] != b@[j as int]);
            return false;
        }
        j = j + 1;
    }
    assert(a@.subrange(0, b@.len() as int) =~= b@);
    true
}

/// Whether two strings hold the same characters.
pub fn str_eq(a: &str, b: &str) -> (r: bool)
    ensures
        r == (a@ == b@),
{
    let x = chars_of(a);
    let y = chars_of(b);
    if x.len() != y.len() {
        return false;
    }
    let mut j: usize = 0;
    while j < x.len()
        invariant
            x.len() == y.len(),
            x@ == a@,
            y@ == b@,
            j <= x.len(),
            forall|k: int| 0 <= k < j ==> x@[k] == y@[k],
        decreases x.len() - j,
    {
        if x[j] != y[j] {
            assert(a@[j as int] != b@[j as int]);
            return false;
        }
        j = j + 1;
    }
    assert(x@ =~= y@);
    true
}

/// The six fractional digits of a count of millionths below one million.
pub open spec fn frac6(f: nat) -> Seq<char> {
    seq![
        digit_char((f / 100_000) as int),
        digit_char(((f / 10_000) % 10) as int),
        digit_char(((f / 1_000) % 10) as int),
        digit_char(((f / 100) % 10) as int),
        digit_char(((f / 10) % 10) as int),
        digit_char((f % 10) as int),
    ]
}

/// The characters without their trailing zeros.
pub open spec fn strip_zeros(s: Seq<char>) -> Seq<char>
    decreases s.len(),
{
    if s.len() > 0 && s.last() == '0' {
        strip_zeros(s.drop_last())
    } else {
        s
    }
}

/// The shortest decimal representation of `v` millionths: the integer
/// part, then, when not whole, a point and the fractional digits without
/// trailing zeros (`5_000_000` is `5`, `450_000` is `0.45`).
pub open spec fn fixed_repr(v: int) -> Seq<char> {
    let a: nat = if v < 0 { (-v) as nat } else { v as nat };
    let ip: nat = a / 1_000_000;
    let fp: nat = a % 1_000_000;
    let body = if fp == 0 { dec_nat(ip) } else { dec_nat(ip) + seq!['.'] + strip_zeros(frac6(fp)) };
    if v < 0 { seq!['-'] + body } else { body }
}

/// Writes `v` millionths as a decimal number (see [`fixed_repr`]).
pub fn format_micros(v: i64) -> (s: String)
    ensures
        s@ == fixed_repr(v as int),
{
    let a: u64 = if v < 0 { (0i128 - (v as i128)) as u64 } else { v as u64 };
    let ip = a / 1_000_000;
    let fp = a % 1_000_000;
    let mut s = String::new();
    if v < 0 {
        push_char(&mut s, '-');
    }
    let digits = dec_u64(ip);
    push_chars(&mut s, &digits);
    if fp != 0 {
        push_char(&mut s, '.');
        let mut f: Vec<char> = Vec::new();
        f.push(digit_of(fp / 100_000));
        f.push(digit_of((fp / 10_000) % 10));
        f.push(digit_of((fp / 1_000) % 10));
        f.push(digit_of((fp / 100) % 10));
        f.push(digit_of((fp / 10) % 10));
        f.push(digit_of(fp % 10));
        assert(f@ =~= frac6(fp as nat));
        let ghost full = f@;
        while f.len() > 0 && f[f.len() - 1] == '0'
            invariant
                strip_zeros(f@) == strip_zeros(full),
            decreases f.len(),
        {
            f.pop();
        }
        push_chars(&mut s, &f);
    }
    proof {
        let body = if fp == 0 { dec_nat(ip as nat) } else { dec_nat(ip as nat) + seq!['.'] + strip_zeros(frac6(fp as nat)) };
        if v < 0 {
            assert(s@ =~= seq!['-'] + body);
        } else {
            assert(s@ =~= body);
        }
    }
    s
}

/// `v` millionths rounded to four decimals, half a unit away from zero, in
/// units of 0.0001.
pub open spec fn round4(v: int) -> int {
    if v >= 0 { (v + 50) / 100 } else { -((-v + 50) / 100) }
}

/// Four zero-padded decimal digits of `f` (below 10,000).
pub open spec fn frac4(f: nat) -> Seq<char> {
    seq![
        digit_char((f / 1_000) as int),
        digit_char(((f / 100) % 10) as int),
        digit_char(((f / 10) % 10) as int),
        digit_char((f % 10) as int),
    ]
}

/// `v` millionths written with exactly four decimals (`{:.4}`), rounding
/// half away from zero; a result that rounds to zero carries no sign.
pub open spec fn fixed4_repr(v: int) -> Seq<char> {
    let r = round4(v);
    let a: nat = if r < 0 { (-r) as nat } else { r as nat };
    let body = dec_nat(a / 10_000) + seq!['.'] + frac4(a % 10_000);
    if r < 0 { seq!['-'] + body } else { body }
}

/// Writes `v` millionths with four decimals (see [`fixed4_repr`]).
pub fn format_fixed4(v: i64) -> (s: String)
    ensures
        s@ == fixed4_repr(v as int),
{
    let r: i128 = if v >= 0 { ((v as i128) + 50) / 100 } else { 0 - ((0 - (v as i128)) + 50) / 100 };
    let a: u64 = if r < 0 { (0 - r) as u64 } else { r as u64 };
    let mut s = String::new();
    if r < 0 {
        push_char(&mut s, '-');
    }
    push_chars(&mut s, &dec_u64(a / 10_000));
    push_char(&mut s, '.');
    let f = a % 10_000;
    let mut d: Vec<char> = Vec::new();
    d.push(digit_of(f / 1_000));
    d.push(digit_of((f / 100) % 10));
    d.push(digit_of((f / 10) % 10));
    d.push(digit_of(f % 10));
    push_chars(&mut s, &d);
    proof {
        let body = dec_nat((a / 10_000) as nat) + seq!['.'] + frac4((a % 10_000) as nat);
        assert(d@ =~= frac4(f as nat));
        if r < 0 {
            assert(s@ =~= seq!['-'] + body);
        } else {
            assert(s@ =~= body);
        }
    }
    s
}

/// Whether `needle` occurs in `hay` at position `i`.
fn matches_at(hay: &Vec<char>, needle: &Vec<char>, i: usize) -> (r: bool)
    ensures
        r == occurs_at(hay@, needle@, i as int),
{
    let n = needle.len();
    if i > hay.len() || n > hay.len() - i {
        return false;
    }
    let mut j: usize = 0;
    while j < n
        invariant
            n == needle.len(),
            i + n <= hay.len(),
            j <= n,
            forall|k: int| 0 <= k < j ==> hay@[i + k] == needle@[k],
        decreases n - j,
    {
        if hay[i + j] != needle[j] {
            assert(hay@.subrange(i as int, i + n)[j as int] != needle@[j as int]);
            return false;
        }
        j = j + 1;
    }
    assert(hay@.subrange(i as int, i + n) =~= needle@);
    true
}

/// `s` with every occurrence of the non-empty `from` replaced by `to` (see
/// [`replaced`]).
pub fn replace_all(s: &str, from: &str, to: &str) -> (r: String)
    requires
        from@.len() > 0,
    ensures
        r@ == replaced(s@, from@, to@),
{
    let hay = chars_of(s);
    let pat = chars_of(from);
    let rep = chars_of(to);
    let n = pat.len();
    let len = hay.len();
    let mut out: Vec<char> = Vec::new();
    let mut i: usize = 0;
    assert(hay@.subrange(0, len as int) =~= hay@);
    while i < len
        invariant
            hay@ == s@,
            pat@ == from@,
            rep@ == to@,
            n == pat@.len(),
            n > 0,
            len == hay@.len(),
            i <= len,
            out@ + replaced(hay@.subrange(i as int, len as int), pat@, rep@) == replaced(hay@, pat@, rep@),
        decreases len - i,
    {
        let ghost rest = hay@.subrange(i as int, len as int);
        if matches_at(&hay, &pat, i) {
            assert(rest.subrange(0, n as int) =~= pat@);
            assert(rest.subrange(n as int, rest.len() as int) =~= hay@.subrange(i + n, len as int));
            let ghost before = out@;
            let mut k: usize = 0;
            while k < rep.len()
                invariant
                    k <= rep.len(),
                    out@ == before + rep@.subrange(0, k as int),
                decreases rep.len() - k,
            {
                out.push(rep[k]);
                k = k + 1;
                assert(out@ =~= before + rep@.subrange(0, k as int));
            }
            assert(rep@.subrange(0, rep@.len() as int) =~= rep@);
            assert(out@ + replaced(hay@.subrange(i + n, len as int), pat@, rep@)
                =~= before + replaced(rest, pat@, rep@));
            i = i + n;
        } else {
            let ghost tail = hay@.subrange(i + 1, len as int);
            proof {
                assert(rest.subrange(1, rest.len() as int) =~= tail);
                if rest.len() < n {
                    assert(replaced(tail, pat@, rep@) == tail);
                    assert(seq![rest[0]] + tail =~= rest);
                } else {
                    assert(rest.subrange(0, n as int) != pat@) by {
                        if rest.subrange(0, n as int) == pat@ {
                            assert(hay@.subrange(i as int, i + n) =~= rest.subrange(0, n as int));
                        }
                    }
                }
                assert(replaced(rest, pat@, rep@) == seq![rest[0]] + replaced(tail, pat@, rep@));
            }
            let ghost before = out@;
            out.push(hay[i]);
            assert(out@ + replaced(tail, pat@, rep@) =~= before + (seq![rest[0]] + replaced(tail, pat@, rep@)));
            i = i + 1;
        }
    }
    assert(out@ + replaced(hay@.subrange(len as int, len as int), pat@, rep@) =~= out@);
    string_of(&out)
}

} // verus!
