//! Building strings one character at a time, and decimal numerals.
use vstd::prelude::*;

verus! {

/// Appends one character to a `String`.
/// Trusted: `String::push`, documented to append the character at the end.
#[verifier::external_body]
pub fn push_char(s: &mut String, c: char)
    ensures
        final(s)@ == old(s)@.push(c),
{
    s.push(c);
}

/// Appends a string slice to a `String`.
pub fn push_str(s: &mut String, t: &str)
    ensures
        final(s)@ == old(s)@ + t@,
{
    s.append(t);
}

/// A new `String` holding the characters of `t`.
pub fn string_of(t: &str) -> (r: String)
    ensures
        r@ == t@,
{
    let mut r = String::new();
    push_str(&mut r, t);
    r
}

/// The ASCII digit for `n` (0 to 9).
pub open spec fn digit_char(n: int) -> char {
    (48 + n) as char
}

/// The decimal numeral of `n`, without leading zeros ("0" for zero).
pub open spec fn dec(n: nat) -> Seq<char>
    decreases n,
{
    if n < 10 {
        seq![digit_char(n as int)]
    } else {
        dec(n / 10).push(digit_char((n % 10) as int))
    }
}

/// The decimal numeral of `n`, left-padded with '0' to at least `width` characters.
pub open spec fn dec_padded(n: nat, width: nat) -> Seq<char> {
    let digits = dec(n);
    if digits.len() >= width {
        digits
    } else {
        Seq::new((width - digits.len()) as nat, |i: int| '0') + digits
    }
}

fn digit(n: u64) -> (c: char)
    requires
        n < 10,
    ensures
        c == digit_char(n as int),
{
    let b: u8 = 48u8 + n as u8;
    b as char
}

/// Number of decimal digits of `n`.
fn dec_len(n: u64) -> (l: usize)
    ensures
        l as nat == dec(n as nat).len(),
        1 <= l <= 20,
    decreases n,
{
    if n < 10 {
        1
    } else {
        let l = dec_len(n / 10);
        proof {
            if l == 20 {
                lemma_dec_len_lower((n / 10) as nat, 20);
                reveal_with_fuel(pow10, 20);
            }
        }
        l + 1
    }
}

proof fn lemma_dec_len_lower(n: nat, k: nat)
    requires
        dec(n).len() == k,
        k >= 2,
    ensures
        n >= pow10((k - 1) as nat),
    decreases n,
{
    reveal_with_fuel(pow10, 2);
    if k > 2 {
        lemma_dec_len_lower(n / 10, (k - 1) as nat);
    }
}

/// 10 to the power `k`.
pub open spec fn pow10(k: nat) -> nat
    decreases k,
{
    if k == 0 {
        1
    } else {
        10 * pow10((k - 1) as nat)
    }
}

/// Appends the decimal numeral of `n`.
pub fn push_dec(s: &mut String, n: u64)
    ensures
        final(s)@ == old(s)@ + dec(n as nat),
    decreases n,
{
    if n >= 10 {
        push_dec(s, n / 10);
        push_char(s, digit(n % 10));
        assert(dec(n as nat) == dec((n / 10) as nat).push(digit_char((n % 10) as int)));
    } else {
        push_char(s, digit(n));
    }
}

/// Appends the decimal numeral of `n`, left-padded with '0' to `width` characters.
pub fn push_dec_padded(s: &mut String, n: u64, width: usize)
    ensures
        final(s)@ == old(s)@ + dec_padded(n as nat, width as nat),
{
    let l = dec_len(n);
    let ghost start = s@;
    if l < width {
        let mut i: usize = l;
        while i < width
            invariant
                l <= i <= width,
                s@ == start + Seq::new((i - l) as nat, |j: int| '0'),
            decreases width - i,
        {
            push_char(s, '0');
            assert(Seq::new((i - l) as nat, |j: int| '0').push('0') =~= Seq::new(
                (i + 1 - l) as nat,
                |j: int| '0',
            ));
            i = i + 1;
        }
    }
    push_dec(s, n);
    assert(s@ =~= start + dec_padded(n as nat, width as nat));
}

/// Whether two string slices hold the same characters.
pub fn str_eq(a: &str, b: &str) -> (r: bool)
    ensures
        r == (a@ == b@),
{
    let n = a.unicode_len();
    if n != b.unicode_len() {
        return false;
    }
    let mut i: usize = 0;
    while i < n
        invariant
            n == a@.len() == b@.len(),
            i <= n,
            forall|j: int| 0 <= j < i ==> a@[j] == b@[j],
        decreases n - i,
    {
        if a.get_char(i) != b.get_char(i) {
            return false;
        }
        i = i + 1;
    }
    assert(a@ =~= b@);
    true
}

/// The index of the first `sep` in `s`, or the length of `s` where it holds none.
pub open spec fn index_of(s: Seq<char>, sep: char) -> nat
    decreases s.len(),
{
    if s.len() == 0 {
        0
    } else if s[0] == sep {
        0
    } else {
        1 + index_of(s.drop_first(), sep)
    }
}

/// The first `sep` is at or past the end of `s`, and no earlier character is `sep`.
pub proof fn lemma_index_of(s: Seq<char>, sep: char)
    ensures
        index_of(s, sep) <= s.len(),
        index_of(s, sep) < s.len() ==> s[index_of(s, sep) as int] == sep,
        forall|j: int| 0 <= j < index_of(s, sep) ==> s[j] != sep,
    decreases s.len(),
{
    if s.len() > 0 && s[0] != sep {
        let t = s.drop_first();
        lemma_index_of(t, sep);
        assert forall|j: int| 0 <= j < index_of(s, sep) implies s[j] != sep by {
            if j > 0 {
                assert(s[j] == t[j - 1]);
            }
        }
    }
}

/// The index in `s` of the first `sep` at or after `from`, or the length of `s`.
pub fn find_char(s: &str, sep: char, from: usize) -> (r: usize)
    requires
        from <= s@.len(),
    ensures
        r == from + index_of(s@.skip(from as int), sep),
        r <= s@.len(),
{
    let n = s.unicode_len();
    let mut i = from;
    while i < n
        invariant
            from <= i <= n,
            n == s@.len(),
            index_of(s@.skip(from as int), sep) == (i - from) + index_of(s@.skip(i as int), sep),
        decreases n - i,
    {
        if s.get_char(i) == sep {
            return i;
        }
        assert(s@.skip(i as int).drop_first() =~= s@.skip(i + 1));
        i = i + 1;
    }
    i
}

/// Whether the characters of `s` from `from` to `to` are those of `t`.
pub fn segment_is(s: &str, from: usize, to: usize, t: &str) -> (r: bool)
    requires
        from <= to <= s@.len(),
    ensures
        r == (s@.subrange(from as int, to as int) == t@),
{
    let m = t.unicode_len();
    if to - from != m {
        return false;
    }
    let mut i: usize = 0;
    while i < m
        invariant
            m == t@.len(),
            to - from == m,
            from <= to <= s@.len(),
            i <= m,
            forall|j: int| 0 <= j < i ==> s@[from + j] == t@[j],
        decreases m - i,
    {
        if s.get_char(from + i) != t.get_char(i) {
            assert(s@.subrange(from as int, to as int)[i as int] != t@[i as int]);
            return false;
        }
        i = i + 1;
    }
    assert(s@.subrange(from as int, to as int) =~= t@);
    true
}

/// `s` with every non-overlapping occurrence of `pat`, scanned from the left,
/// replaced by `rep` (the rule of `str::replace` for a non-empty pattern).
pub open spec fn replace_all(s: Seq<char>, pat: Seq<char>, rep: Seq<char>) -> Seq<char>
    recommends
        pat.len() > 0,
    decreases s.len(),
{
    if pat.len() == 0 || s.len() < pat.len() {
        s
    } else if s.subrange(0, pat.len() as int) == pat {
        rep + replace_all(s.subrange(pat.len() as int, s.len() as int), pat, rep)
    } else {
        seq![s[0]] + replace_all(s.subrange(1, s.len() as int), pat, rep)
    }
}

/// Whether `pat` occurs in `s` at character position `at`.
fn occurs_at(s: &str, n: usize, pat: &str, m: usize, at: usize) -> (r: bool)
    requires
        n == s@.len(),
        m == pat@.len(),
        at + m <= n,
    ensures
        r == (s@.subrange(at as int, at + m) == pat@),
{
    let mut j: usize = 0;
    while j < m
        invariant
            n == s@.len(),
            m == pat@.len(),
            at + m <= n,
            j <= m,
            forall|k: int| 0 <= k < j ==> s@[at + k] == pat@[k],
        decreases m - j,
    {
        if s.get_char(at + j) != pat.get_char(j) {
            assert(s@.subrange(at as int, at + m)[j as int] != pat@[j as int]);
            return false;
        }
        j = j + 1;
    }
    assert(s@.subrange(at as int, at + m) =~= pat@);
    true
}

/// `s` with every occurrence of the non-empty `pat` replaced by `rep`.
pub fn replace(s: &str, pat: &str, rep: &str) -> (r: String)
    requires
        pat@.len() > 0,
    ensures
        r@ == replace_all(s@, pat@, rep@),
{
    let n = s.unicode_len();
    let m = pat.unicode_len();
    let mut out = String::new();
    let mut i: usize = 0;
    assert(s@.subrange(0, n as int) =~= s@);
    assert(out@ + s@ =~= s@);
    while i < n
        invariant
            n == s@.len(),
            m == pat@.len(),
            m > 0,
            i <= n,
            out@ + replace_all(s@.subrange(i as int, n as int), pat@, rep@) == replace_all(s@, pat@, rep@),
        decreases n - i,
    {
        let ghost rest = s@.subrange(i as int, n as int);
        if m <= n - i && occurs_at(s, n, pat, m, i) {
            proof {
                assert(rest.subrange(0, m as int) =~= s@.subrange(i as int, i + m));
                assert(rest.subrange(m as int, rest.len() as int) =~= s@.subrange(i + m, n as int));
            }
            push_str(&mut out, rep);
            i = i + m;
        } else {
            let c = s.get_char(i);
            let ghost tail = s@.subrange(i + 1, n as int);
            proof {
                assert(rest.subrange(1, rest.len() as int) =~= tail);
                if i + m <= n {
                    assert(rest.subrange(0, m as int) =~= s@.subrange(i as int, i + m));
                    assert(replace_all(rest, pat@, rep@) == seq![rest[0]] + replace_all(tail, pat@, rep@));
                } else {
                    assert(replace_all(rest, pat@, rep@) == rest);
                    assert(replace_all(tail, pat@, rep@) == tail);
                    assert(rest =~= seq![c] + tail);
                }
            }
            let ghost before = out@;
            push_char(&mut out, c);
            assert(out@ + replace_all(tail, pat@, rep@) =~= before + (seq![c] + replace_all(tail, pat@, rep@)));
            i = i + 1;
        }
    }
    assert(s@.subrange(n as int, n as int) =~= Seq::<char>::empty());
    out
}

} // verus!
