//! Character-level string operations with exact contracts over `Seq<char>`.

use vstd::prelude::*;
use vstd::string::*;

verus! {

/// `p` is a prefix of `s`.
pub open spec fn seq_starts_with(s: Seq<char>, p: Seq<char>) -> bool {
    p.len() <= s.len() && s.take(p.len() as int) == p
}

/// `i` is the position of the first `':'` in `s`, or `s.len()` when there is none.
pub open spec fn is_first_colon(s: Seq<char>, i: int) -> bool {
    &&& 0 <= i <= s.len()
    &&& (i == s.len() || s[i] == ':')
    &&& forall|j: int| 0 <= j < i ==> s[j] != ':'
}

/// The part of `s` before its first `':'` (all of `s` when it has none):
/// what `s.split(':').next()` yields.
pub open spec fn scheme_part(s: Seq<char>) -> Seq<char> {
    s.take(choose|i: int| is_first_colon(s, i))
}

/// Every match of the non-empty `pat` in `s`, taken left to right without
/// overlap, replaced by `rep`.
pub open spec fn replaced(s: Seq<char>, pat: Seq<char>, rep: Seq<char>) -> Seq<char>
    decreases s.len(),
{
    if pat.len() == 0 || s.len() < pat.len() {
        s
    } else if s.take(pat.len() as int) == pat {
        rep + replaced(s.skip(pat.len() as int), pat, rep)
    } else {
        seq![s[0]] + replaced(s.skip(1), pat, rep)
    }
}

/// The decimal digit for `d < 10`.
pub open spec fn digit_char(d: nat) -> char {
    if d == 0 { '0' }
    else if d == 1 { '1' }
    else if d == 2 { '2' }
    else if d == 3 { '3' }
    else if d == 4 { '4' }
    else if d == 5 { '5' }
    else if d == 6 { '6' }
    else if d == 7 { '7' }
    else if d == 8 { '8' }
    else { '9' }
}

/// The decimal notation of `n`, without leading zeros.
pub open spec fn decimal(n: nat) -> Seq<char>
    decreases n,
{
    if n < 10 {
        seq![digit_char(n)]
    } else {
        decimal(n / 10).push(digit_char(n % 10))
    }
}

/// Appends one character (`String::push`).
#[verifier::external_body]
pub(crate) fn push_char(s: &mut String, c: char)
    ensures
        final(s)@ == old(s)@.push(c),
{
    s.push(c);
}

/// A new `String` holding `a` followed by `b`.
pub fn concat(a: &str, b: &str) -> (r: String)
    ensures
        r@ == a@ + b@,
{
    let mut r = String::from_str(a);
    r.append(b);
    r
}

/// Whether `pat` occurs in `s` at position `i`.
pub fn matches_at(s: &str, i: usize, pat: &str) -> (r: bool)
    requires
        i + pat@.len() <= s@.len(),
    ensures
        r == (s@.subrange(i as int, i + pat@.len()) == pat@),
{
    let m = pat.unicode_len();
    let sn = s.unicode_len();
    let mut k: usize = 0;
    while k < m
        invariant
            m == pat@.len(),
            sn == s@.len(),
            i + m <= s@.len(),
            k <= m,
            forall|j: int| 0 <= j < k ==> s@[i + j] == pat@[j],
        decreases m - k,
    {
        if s.get_char(i + k) != pat.get_char(k) {
            assert(s@.subrange(i as int, i + m)[k as int] != pat@[k as int]);
            return false;
        }
        k = k + 1;
    }
    assert(s@.subrange(i as int, i + m) =~= pat@);
    true
}

/// Whether `s` begins with `p` (`str::starts_with`).
pub fn starts_with(s: &str, p: &str) -> (r: bool)
    ensures
        r == seq_starts_with(s@, p@),
{
    let n = s.unicode_len();
    let m = p.unicode_len();
    if m > n {
        return false;
    }
    let r = matches_at(s, 0, p);
    assert(s@.subrange(0, m as int) =~= s@.take(m as int));
    r
}

/// Whether `a` and `b` hold the same characters.
pub fn str_eq(a: &str, b: &str) -> (r: bool)
    ensures
        r == (a@ == b@),
{
    let n = a.unicode_len();
    let m = b.unicode_len();
    if n != m {
        return false;
    }
    let r = matches_at(a, 0, b);
    assert(a@.subrange(0, n as int) =~= a@);
    r
}

/// Whether `c` occurs in `s` (`str::contains` with a `char`).
pub fn contains_char(s: &str, c: char) -> (r: bool)
    ensures
        r == s@.contains(c),
{
    let n = s.unicode_len();
    let mut i: usize = 0;
    while i < n
        invariant
            n == s@.len(),
            i <= n,
            forall|j: int| 0 <= j < i ==> s@[j] != c,
        decreases n - i,
    {
        if s.get_char(i) == c {
            assert(s@[i as int] == c);
            return true;
        }
        i = i + 1;
    }
    false
}

/// The position of the first `':'` in `s`, or its length when there is none.
pub fn first_colon(s: &str) -> (r: usize)
    ensures
        is_first_colon(s@, r as int),
{
    let n = s.unicode_len();
    let mut i: usize = 0;
    while i < n
        invariant
            n == s@.len(),
            i <= n,
            forall|j: int| 0 <= j < i ==> s@[j] != ':',
        decreases n - i,
    {
        if s.get_char(i) == ':' {
            return i;
        }
        i = i + 1;
    }
    i
}

/// The first colon position is unique, so `scheme_part` is the prefix up to it.
pub proof fn lemma_scheme_part(s: Seq<char>, i: int)
    requires
        is_first_colon(s, i),
    ensures
        scheme_part(s) == s.take(i),
{
    let k = choose|k: int| is_first_colon(s, k);
    assert(is_first_colon(s, k));
    if k < i {
        assert(s[k] != ':');
    }
    if i < k {
        assert(s[i] != ':');
    }
}

/// Scanning from `k`, with no `':'` before it, finds a first colon position.
proof fn lemma_find_colon(s: Seq<char>, k: int)
    requires
        0 <= k <= s.len(),
        forall|j: int| 0 <= j < k ==> s[j] != ':',
    ensures
        exists|i: int| is_first_colon(s, i),
    decreases s.len() - k,
{
    if k == s.len() || s[k] == ':' {
        assert(is_first_colon(s, k));
    } else {
        lemma_find_colon(s, k + 1);
    }
}

/// The scheme part of `s` is a prefix of `s`.
pub proof fn lemma_scheme_part_is_prefix(s: Seq<char>)
    ensures
        scheme_part(s).len() <= s.len(),
        forall|j: int| 0 <= j < scheme_part(s).len() ==> scheme_part(s)[j] == s[j],
        s.len() > 0 && s[0] != ':' ==> scheme_part(s).len() > 0,
{
    lemma_find_colon(s, 0);
    let i = choose|i: int| is_first_colon(s, i);
    lemma_scheme_part(s, i);
}

/// The part of `s` before its first `':'` (`s.split(':').next()`).
pub fn scheme_of(s: &str) -> (r: &str)
    ensures
        r@ == scheme_part(s@),
{
    let i = first_colon(s);
    proof {
        lemma_scheme_part(s@, i as int);
    }
    let r = s.substring_char(0, i);
    assert(r@ =~= s@.take(i as int));
    r
}

/// `s` with every occurrence of the non-empty `pat` replaced by `rep`
/// (`str::replace`).
pub fn replace_all(s: &str, pat: &str, rep: &str) -> (r: String)
    requires
        pat@.len() > 0,
    ensures
        r@ == replaced(s@, pat@, rep@),
{
    let n = s.unicode_len();
    let m = pat.unicode_len();
    let mut out = String::new();
    let mut i: usize = 0;
    assert(s@.skip(0) =~= s@);
    while i < n
        invariant
            n == s@.len(),
            m == pat@.len(),
            m > 0,
            i <= n,
            out@ + replaced(s@.skip(i as int), pat@, rep@) == replaced(s@, pat@, rep@),
        decreases n - i,
    {
        let ghost t = s@.skip(i as int);
        if m <= n - i && matches_at(s, i, pat) {
            assert(t.take(m as int) =~= s@.subrange(i as int, i + m));
            assert(t.skip(m as int) =~= s@.skip(i + m));
            out.append(rep);
            assert(out@ + replaced(s@.skip(i + m), pat@, rep@) =~= replaced(s@, pat@, rep@));
            i = i + m;
        } else {
            let c = s.get_char(i);
            assert(t.skip(1) =~= s@.skip(i + 1));
            proof {
                if t.len() >= m {
                    assert(t.take(m as int) =~= s@.subrange(i as int, i + m));
                } else {
                    assert(replaced(t.skip(1), pat@, rep@) == t.skip(1));
                    assert(t =~= seq![t[0]] + t.skip(1));
                }
            }
            push_char(&mut out, c);
            assert(out@ + replaced(s@.skip(i + 1), pat@, rep@) =~= replaced(s@, pat@, rep@));
            i = i + 1;
        }
    }
    assert(s@.skip(n as int) =~= Seq::<char>::empty());
    assert(out@ + Seq::<char>::empty() =~= out@);
    out
}

/// The decimal digit for `d < 10`.
pub fn digit(d: usize) -> (c: char)
    requires
        d < 10,
    ensures
        c == digit_char(d as nat),
{
    if d == 0 { '0' }
    else if d == 1 { '1' }
    else if d == 2 { '2' }
    else if d == 3 { '3' }
    else if d == 4 { '4' }
    else if d == 5 { '5' }
    else if d == 6 { '6' }
    else if d == 7 { '7' }
    else if d == 8 { '8' }
    else { '9' }
}

/// The decimal notation of `n`.
pub fn decimal_string(n: usize) -> (r: String)
    ensures
        r@ == decimal(n as nat),
    decreases n,
{
    if n < 10 {
        let mut r = String::new();
        push_char(&mut r, digit(n));
        assert(r@ =~= seq![digit_char(n as nat)]);
        r
    } else {
        let mut r = decimal_string(n / 10);
        push_char(&mut r, digit(n % 10));
        r
    }
}

// ── Laws of replacement ──────────────────────────────────────────────────────

/// A match of `pat` at the start is replaced by `rep`, and replacing goes on
/// right after the match.
pub proof fn lemma_replaced_match(pat: Seq<char>, t: Seq<char>, rep: Seq<char>)
    requires
        pat.len() > 0,
    ensures
        replaced(pat + t, pat, rep) == rep + replaced(t, pat, rep),
{
    let s = pat + t;
    assert(s.take(pat.len() as int) =~= pat);
    assert(s.skip(pat.len() as int) =~= t);
}

/// A prefix in which the first character of `pat` never occurs is kept as it
/// is, and replacing goes on after it.
pub proof fn lemma_replaced_keeps_prefix(a: Seq<char>, t: Seq<char>, pat: Seq<char>, rep: Seq<char>)
    requires
        pat.len() > 0,
        forall|j: int| 0 <= j < a.len() ==> a[j] != pat[0],
    ensures
        replaced(a + t, pat, rep) == a + replaced(t, pat, rep),
    decreases a.len(),
{
    if a.len() == 0 {
        assert(a + t =~= t);
        assert(a + replaced(t, pat, rep) =~= replaced(t, pat, rep));
    } else {
        let s = a + t;
        let rest = a.skip(1);
        lemma_replaced_keeps_prefix(rest, t, pat, rep);
        assert(s.skip(1) =~= rest + t);
        if s.len() >= pat.len() {
            assert(s.take(pat.len() as int)[0] == a[0]);
            assert(s.take(pat.len() as int) != pat);
            assert(a + replaced(t, pat, rep) =~= seq![a[0]] + (rest + replaced(t, pat, rep)));
        } else {
            assert(replaced(t, pat, rep) == t);
        }
    }
}

/// Text in which the first character of `pat` never occurs is left as it is.
pub proof fn lemma_replaced_untouched(s: Seq<char>, pat: Seq<char>, rep: Seq<char>)
    requires
        pat.len() > 0,
        forall|j: int| 0 <= j < s.len() ==> s[j] != pat[0],
    ensures
        replaced(s, pat, rep) == s,
{
    let e = Seq::<char>::empty();
    lemma_replaced_keeps_prefix(s, e, pat, rep);
    assert(s + e =~= s);
    assert(replaced(e, pat, rep) == e);
}

// ── Law of decimal notation ──────────────────────────────────────────────────

/// `c` is an ASCII decimal digit.
pub open spec fn is_digit(c: char) -> bool {
    0x30 <= c as u32 <= 0x39
}

/// The number that a string of ASCII decimal digits reads as, most
/// significant digit first.
pub open spec fn digits_value(s: Seq<char>) -> int
    decreases s.len(),
{
    if s.len() == 0 {
        0
    } else {
        10 * digits_value(s.drop_last()) + (s.last() as u32 - 0x30)
    }
}

/// The decimal notation of `n` is a non-empty string of ASCII digits that
/// reads back as `n`, with no leading zero.
pub proof fn lemma_decimal_reads_back(n: nat)
    ensures
        decimal(n).len() > 0,
        forall|j: int| 0 <= j < decimal(n).len() ==> is_digit(#[trigger] decimal(n)[j]),
        digits_value(decimal(n)) == n,
        decimal(n)[0] == '0' ==> n == 0,
    decreases n,
{
    assert(digit_char(n % 10) as u32 - 0x30 == n % 10);
    if n < 10 {
        let s = seq![digit_char(n)];
        assert(s.drop_last() =~= Seq::<char>::empty());
        assert(digits_value(Seq::<char>::empty()) == 0);
    } else {
        let q = n / 10;
        let d = n % 10;
        lemma_decimal_reads_back(q);
        let s = decimal(q).push(digit_char(d));
        assert(s.drop_last() =~= decimal(q));
        assert(s.last() == digit_char(d));
        assert(s[0] == decimal(q)[0]);
        assert(q > 0);
        assert(10 * q + d == n);
    }
}

} // verus!
