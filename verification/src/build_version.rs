//! Build dates: the civil date of a day count, and the Windows version number of a date.
use vstd::prelude::*;
use crate::text::{dec, dec_padded, digit_char, pow10, push_dec_padded};

verus! {

/// Gregorian leap year.
pub open spec fn is_leap(y: int) -> bool {
    y % 4 == 0 && (y % 100 != 0 || y % 400 == 0)
}

/// Days in the year `y`.
pub open spec fn year_len(y: int) -> int {
    if is_leap(y) { 366 } else { 365 }
}

/// Days in month `m` (1 to 12) of year `y`; 0 for any other month number.
pub open spec fn month_len(y: int, m: int) -> int {
    if m == 2 {
        if is_leap(y) { 29 } else { 28 }
    } else if m == 4 || m == 6 || m == 9 || m == 11 {
        30
    } else if 1 <= m <= 12 {
        31
    } else {
        0
    }
}

/// A day that exists in the Gregorian calendar.
pub open spec fn valid_date(y: int, m: int, d: int) -> bool {
    1 <= m <= 12 && 1 <= d <= month_len(y, m)
}

/// Leap years among the years 1 to `y - 1`.
pub open spec fn leaps_before(y: int) -> int {
    (y - 1) / 4 - (y - 1) / 100 + (y - 1) / 400
}

/// Days from 1970-01-01 to the first day of year `y`.
pub open spec fn days_before_year(y: int) -> int {
    365 * (y - 1970) + leaps_before(y) - leaps_before(1970)
}

/// Days from the first of January to the first of month `m` in year `y`.
pub open spec fn days_before_month(y: int, m: int) -> int
    decreases m,
{
    if m <= 1 {
        0
    } else {
        days_before_month(y, m - 1) + month_len(y, m - 1)
    }
}

/// Days from 1970-01-01 to the date `y`-`m`-`d`.
pub open spec fn epoch_days(y: int, m: int, d: int) -> int {
    days_before_year(y) + days_before_month(y, m) + d - 1
}

/// The date written as `YYYYMMDD`: the year padded to at least four digits,
/// month and day to two.
pub open spec fn date_text(y: nat, m: nat, d: nat) -> Seq<char> {
    dec_padded(y, 4) + dec_padded(m, 2) + dec_padded(d, 2)
}

proof fn lemma_next_year(y: int)
    requires
        y >= 1,
    ensures
        days_before_year(y + 1) == days_before_year(y) + year_len(y),
{
}

proof fn lemma_four_centuries(y: int)
    requires
        y >= 1,
    ensures
        days_before_year(y + 400) == days_before_year(y) + 146097,
{
}

proof fn lemma_eras(k: nat)
    ensures
        days_before_year(1970 + 400 * k as int) == 146097 * k,
    decreases k,
{
    if k > 0 {
        lemma_eras((k - 1) as nat);
        lemma_four_centuries(1970 + 400 * (k - 1));
    }
}

proof fn lemma_months(y: int)
    ensures
        days_before_month(y, 12) + month_len(y, 12) == year_len(y),
        forall|m: int| 1 <= m < 12 ==> days_before_month(y, m) + month_len(y, m) <= days_before_month(y, 12),
{
    reveal_with_fuel(days_before_month, 13);
}

fn leap(y: u64) -> (r: bool)
    ensures
        r == is_leap(y as int),
{
    y % 4 == 0 && (y % 100 != 0 || y % 400 == 0)
}

fn month_days(y: u64, m: u64) -> (r: u64)
    ensures
        r as int == month_len(y as int, m as int),
{
    if m == 2 {
        if leap(y) { 29 } else { 28 }
    } else if m == 4 || m == 6 || m == 9 || m == 11 {
        30
    } else if 1 <= m && m <= 12 {
        31
    } else {
        0
    }
}

/// The civil date of the day numbered `days`, counting 1970-01-01 as day 0.
fn civil_from_days(days: u64) -> (r: (u64, u64, u64))
    ensures
        r.0 >= 1970,
        valid_date(r.0 as int, r.1 as int, r.2 as int),
        epoch_days(r.0 as int, r.1 as int, r.2 as int) == days,
{
    let era: u64 = days / 146097;
    let mut rem: u64 = days - era * 146097;
    let mut y: u64 = 1970 + era * 400;
    let ghost y0 = y;
    proof {
        lemma_eras(era as nat);
    }
    loop
        invariant
            y0 == 1970 + era * 400,
            y0 <= y,
            y - y0 + rem <= 146096,
            days_before_year(y as int) + rem == days,
        ensures
            y0 <= y,
            days_before_year(y as int) + rem == days,
            rem < year_len(y as int),
        decreases rem,
    {
        let len: u64 = if leap(y) { 366 } else { 365 };
        if rem < len {
            break;
        }
        proof {
            lemma_next_year(y as int);
        }
        rem = rem - len;
        y = y + 1;
    }
    proof {
        lemma_months(y as int);
    }
    let mut m: u64 = 1;
    loop
        invariant
            1 <= m <= 12,
            y >= 1970,
            rem + days_before_month(y as int, m as int) < year_len(y as int),
            days_before_year(y as int) + days_before_month(y as int, m as int) + rem == days,
            days_before_month(y as int, 12) + month_len(y as int, 12) == year_len(y as int),
            forall|k: int| 1 <= k < 12 ==> days_before_month(y as int, k) + month_len(y as int, k) <= days_before_month(y as int, 12),
        ensures
            1 <= m <= 12,
            days_before_year(y as int) + days_before_month(y as int, m as int) + rem == days,
            rem < month_len(y as int, m as int),
        decreases 12 - m,
    {
        let len = month_days(y, m);
        if rem < len {
            break;
        }
        rem = rem - len;
        m = m + 1;
    }
    (y, m, rem + 1)
}

/// The build date of the day numbered `days` (1970-01-01 is day 0), as `YYYYMMDD`.
pub fn date_from_unix_days(days: u64) -> (s: String)
    requires
        days + 719468 <= i64::MAX,
    ensures
        exists|y: nat, m: nat, d: nat|
            #![trigger date_text(y, m, d)]
            y >= 1970 && valid_date(y as int, m as int, d as int) && epoch_days(y as int, m as int, d as int)
                == days && s@ == date_text(y, m, d),
{
    let (y, m, d) = civil_from_days(days);
    let mut s = String::new();
    push_dec_padded(&mut s, y, 4);
    push_dec_padded(&mut s, m, 2);
    push_dec_padded(&mut s, d, 2);
    assert(s@ == date_text(y as nat, m as nat, d as nat));
    s
}

/// An ASCII decimal digit.
pub open spec fn is_digit(c: char) -> bool {
    '0' <= c <= '9'
}

/// The value of a run of decimal digits.
pub open spec fn dec_value(s: Seq<char>) -> int
    decreases s.len(),
{
    if s.len() == 0 {
        0
    } else {
        dec_value(s.drop_last()) * 10 + (s.last() as int - 48)
    }
}

/// Year, month and day of an eight-digit `YYYYMMDD` text.
pub open spec fn date_fields(s: Seq<char>) -> (int, int, int) {
    (dec_value(s.subrange(0, 4)), dec_value(s.subrange(4, 6)), dec_value(s.subrange(6, 8)))
}

/// `s` is eight ASCII digits naming a day of 1970 or later.
pub open spec fn build_date_valid(s: Seq<char>) -> bool {
    &&& s.len() == 8
    &&& forall|i: int| 0 <= i < 8 ==> is_digit(#[trigger] s[i])
    &&& date_fields(s).0 >= 1970
    &&& valid_date(date_fields(s).0, date_fields(s).1, date_fields(s).2)
}

proof fn lemma_dec_value_bound(s: Seq<char>)
    requires
        forall|i: int| 0 <= i < s.len() ==> is_digit(#[trigger] s[i]),
    ensures
        0 <= dec_value(s) < pow10_int(s.len()),
    decreases s.len(),
{
    if s.len() > 0 {
        let t = s.drop_last();
        assert forall|i: int| 0 <= i < t.len() implies is_digit(#[trigger] t[i]) by {
            assert(t[i] == s[i]);
        }
        lemma_dec_value_bound(t);
        assert(is_digit(s[s.len() - 1]));
    }
}

/// 10 to the power `k`.
pub open spec fn pow10_int(k: nat) -> int
    decreases k,
{
    if k == 0 {
        1
    } else {
        10 * pow10_int((k - 1) as nat)
    }
}

/// Parses `date[from..to]`, a run of ASCII digits.
fn parse_digits(date: &str, from: usize, to: usize) -> (v: u64)
    requires
        from <= to <= date@.len(),
        to - from <= 4,
        forall|i: int| from <= i < to ==> is_digit(#[trigger] date@[i]),
    ensures
        v == dec_value(date@.subrange(from as int, to as int)),
{
    let mut v: u64 = 0;
    let mut i: usize = from;
    while i < to
        invariant
            from <= i <= to,
            to <= date@.len(),
            to - from <= 4,
            forall|j: int| from <= j < to ==> is_digit(#[trigger] date@[j]),
            v == dec_value(date@.subrange(from as int, i as int)),
        decreases to - i,
    {
        let c = date.get_char(i);
        assert(is_digit(date@[i as int]));
        let ghost prefix = date@.subrange(from as int, i as int);
        proof {
            assert forall|j: int| 0 <= j < prefix.len() implies is_digit(#[trigger] prefix[j]) by {
                assert(prefix[j] == date@[from + j]);
            }
            lemma_dec_value_bound(prefix);
            reveal_with_fuel(pow10_int, 5);
            assert(date@.subrange(from as int, i + 1).drop_last() =~= prefix);
        }
        let d: u64 = (c as u32 - 48) as u64;
        v = v * 10 + d;
        i = i + 1;
    }
    v
}

/// Whether `date` is an eight-digit `YYYYMMDD` build date of 1970 or later.
pub fn build_date_is_valid(date: &str) -> (r: bool)
    ensures
        r == build_date_valid(date@),
{
    let n = date.unicode_len();
    if n != 8 {
        return false;
    }
    let mut i: usize = 0;
    while i < 8
        invariant
            n == date@.len() == 8,
            i <= 8,
            forall|j: int| 0 <= j < i ==> is_digit(#[trigger] date@[j]),
        decreases 8 - i,
    {
        let c = date.get_char(i);
        if !('0' <= c && c <= '9') {
            return false;
        }
        i = i + 1;
    }
    let year = parse_digits(date, 0, 4);
    let month = parse_digits(date, 4, 6);
    let day = parse_digits(date, 6, 8);
    year >= 1970 && 1 <= month && month <= 12 && 1 <= day && day <= month_days(year, month)
}

/// The Windows file version of a build date: year, month and day in the three
/// high 16-bit fields.
pub fn windows_version(date: &str) -> (v: u64)
    requires
        build_date_valid(date@),
    ensures
        v == date_fields(date@).0 * 0x1_0000_0000_0000 + date_fields(date@).1 * 0x1_0000_0000
            + date_fields(date@).2 * 0x1_0000,
{
    let year = parse_digits(date, 0, 4);
    let month = parse_digits(date, 4, 6);
    let day = parse_digits(date, 6, 8);
    proof {
        let s = date@;
        assert forall|j: int| 0 <= j < 4 implies is_digit(#[trigger] s.subrange(0, 4)[j]) by {
            assert(s.subrange(0, 4)[j] == s[j]);
        }
        lemma_dec_value_bound(s.subrange(0, 4));
        reveal_with_fuel(pow10_int, 5);
    }
    assert((year << 48u64) | (month << 32u64) | (day << 16u64) == year * 0x1_0000_0000_0000
        + month * 0x1_0000_0000 + day * 0x1_0000) by (bit_vector)
        requires
            year < 10000,
            month <= 12,
            day <= 31,
    ;
    (year << 48u64) | (month << 32u64) | (day << 16u64)
}

proof fn lemma_dec_digits(n: nat)
    ensures
        forall|i: int| 0 <= i < dec(n).len() ==> is_digit(#[trigger] dec(n)[i]),
        dec_value(dec(n)) == n,
    decreases n,
{
    let d = dec(n);
    if n >= 10 {
        lemma_dec_digits(n / 10);
        assert(d.drop_last() =~= dec(n / 10));
        assert(d.last() == digit_char((n % 10) as int));
        assert(digit_char((n % 10) as int) as int == 48 + n % 10);
        assert((n / 10) * 10 + n % 10 == n);
        assert forall|i: int| 0 <= i < d.len() implies is_digit(#[trigger] d[i]) by {
            if i < d.len() - 1 {
                assert(d[i] == dec(n / 10)[i]);
            }
        }
    } else {
        assert(d.drop_last() =~= Seq::<char>::empty());
        assert(d.last() == digit_char(n as int));
        assert(digit_char(n as int) as int == 48 + n);
        assert(dec_value(Seq::<char>::empty()) == 0);
        assert(is_digit(d[0]));
    }
}

proof fn lemma_dec_short(n: nat, w: nat)
    requires
        w >= 1,
        n < pow10(w),
    ensures
        dec(n).len() <= w,
    decreases n,
{
    if n >= 10 {
        assert(w >= 2) by {
            if w == 1 {
                reveal_with_fuel(pow10, 2);
            }
        }
        assert(n / 10 < pow10((w - 1) as nat));
        lemma_dec_short(n / 10, (w - 1) as nat);
    }
}

proof fn lemma_zeros_value(k: nat)
    ensures
        dec_value(Seq::new(k, |i: int| '0')) == 0,
    decreases k,
{
    if k > 0 {
        assert(Seq::new(k, |i: int| '0').drop_last() =~= Seq::new((k - 1) as nat, |i: int| '0'));
        lemma_zeros_value((k - 1) as nat);
    }
}

proof fn lemma_leading_zeros(k: nat, t: Seq<char>)
    ensures
        dec_value(Seq::new(k, |i: int| '0') + t) == dec_value(t),
    decreases t.len(),
{
    let z = Seq::new(k, |i: int| '0');
    if t.len() == 0 {
        assert(z + t =~= z);
        lemma_zeros_value(k);
    } else {
        assert((z + t).drop_last() =~= z + t.drop_last());
        lemma_leading_zeros(k, t.drop_last());
    }
}

/// `dec_padded(n, w)` is `w` digits reading `n`, for `n` below `10^w`.
proof fn lemma_padded(n: nat, w: nat)
    requires
        w >= 1,
        n < pow10(w),
    ensures
        dec_padded(n, w).len() == w,
        forall|i: int| 0 <= i < w ==> is_digit(#[trigger] dec_padded(n, w)[i]),
        dec_value(dec_padded(n, w)) == n,
{
    lemma_dec_short(n, w);
    lemma_dec_digits(n);
    let digits = dec(n);
    if digits.len() < w {
        let k = (w - digits.len()) as nat;
        lemma_leading_zeros(k, digits);
        let p = dec_padded(n, w);
        assert forall|i: int| 0 <= i < w implies is_digit(#[trigger] p[i]) by {
            if i >= k {
                assert(p[i] == digits[i - k]);
            }
        }
    }
}

/// Every build date of a day up to the year 9999 is one that the Windows
/// version accepts, and its fields read back as that day.
pub proof fn law_build_date_round_trip(y: nat, m: nat, d: nat)
    requires
        1970 <= y <= 9999,
        valid_date(y as int, m as int, d as int),
    ensures
        build_date_valid(date_text(y, m, d)),
        date_fields(date_text(y, m, d)) == (y as int, m as int, d as int),
{
    reveal_with_fuel(pow10, 5);
    lemma_padded(y, 4);
    lemma_padded(m, 2);
    lemma_padded(d, 2);
    let s = date_text(y, m, d);
    let a = dec_padded(y, 4);
    let b = dec_padded(m, 2);
    let c = dec_padded(d, 2);
    assert(s.subrange(0, 4) =~= a);
    assert(s.subrange(4, 6) =~= b);
    assert(s.subrange(6, 8) =~= c);
    assert forall|i: int| 0 <= i < 8 implies is_digit(#[trigger] s[i]) by {
        if i < 4 {
            assert(s[i] == a[i]);
        } else if i < 6 {
            assert(s[i] == b[i - 4]);
        } else {
            assert(s[i] == c[i - 6]);
        }
    }
}

/// The value of a `YYYYMMDD` text read as one eight-digit number.
pub open spec fn date_number(s: Seq<char>) -> int {
    date_fields(s).0 * 10000 + date_fields(s).1 * 100 + date_fields(s).2
}

proof fn lemma_years_grow(a: int, b: int)
    requires
        1970 <= a < b,
    ensures
        days_before_year(a) + year_len(a) <= days_before_year(b),
    decreases b - a,
{
    lemma_next_year(a);
    if a + 1 < b {
        lemma_years_grow(a + 1, b);
    }
}

proof fn lemma_months_grow(y: int, a: int, b: int)
    requires
        1 <= a < b,
    ensures
        days_before_month(y, a) + month_len(y, a) <= days_before_month(y, b),
    decreases b - a,
{
    if a + 1 < b {
        lemma_months_grow(y, a, b - 1);
        assert(days_before_month(y, b) == days_before_month(y, b - 1) + month_len(y, b - 1));
    }
}

proof fn lemma_within_year(y: int, m: int, d: int)
    requires
        valid_date(y, m, d),
    ensures
        days_before_month(y, m) + d - 1 < year_len(y),
{
    lemma_months(y);
    if m < 12 {
        lemma_months_grow(y, m, 12);
    }
}

/// A later day has a later date: read as `YYYYMMDD` numbers, the dates of
/// two days from 1970 on keep the days' order.
pub proof fn law_later_day_later_date(y1: int, m1: int, d1: int, y2: int, m2: int, d2: int)
    requires
        1970 <= y1,
        1970 <= y2,
        valid_date(y1, m1, d1),
        valid_date(y2, m2, d2),
        epoch_days(y1, m1, d1) < epoch_days(y2, m2, d2),
    ensures
        y1 * 10000 + m1 * 100 + d1 < y2 * 10000 + m2 * 100 + d2,
{
    lemma_within_year(y1, m1, d1);
    lemma_within_year(y2, m2, d2);
    lemma_months_nonneg(y1, m1);
    lemma_months_nonneg(y2, m2);
    if y1 > y2 {
        lemma_years_grow(y2, y1);
    } else if y1 == y2 && m1 > m2 {
        lemma_months_grow(y1, m2, m1);
    }
    assert(y1 < y2 || (y1 == y2 && (m1 < m2 || (m1 == m2 && d1 < d2))));
    assert(y1 * 10000 + m1 * 100 + d1 < y2 * 10000 + m2 * 100 + d2) by (nonlinear_arith)
        requires
            y1 < y2 || (y1 == y2 && (m1 < m2 || (m1 == m2 && d1 < d2))),
            1 <= m1 <= 12,
            1 <= m2 <= 12,
            1 <= d1 <= 31,
            1 <= d2 <= 31,
    ;
}

proof fn lemma_months_nonneg(y: int, m: int)
    ensures
        days_before_month(y, m) >= 0,
    decreases m,
{
    if m > 1 {
        lemma_months_nonneg(y, m - 1);
    }
}

/// The dates of the days up to 9999-12-31 (day 2932896) are all accepted by
/// the Windows version, read back as their days, and grow with the day: for
/// two days in order, the texts `date_from_unix_days` writes for them (the
/// `date_text` of their dates) are valid build dates whose numbers keep that
/// order.
pub proof fn law_build_dates_grow_with_the_day(y1: nat, m1: nat, d1: nat, y2: nat, m2: nat, d2: nat)
    requires
        y1 >= 1970,
        y2 >= 1970,
        valid_date(y1 as int, m1 as int, d1 as int),
        valid_date(y2 as int, m2 as int, d2 as int),
        epoch_days(y1 as int, m1 as int, d1 as int) < epoch_days(y2 as int, m2 as int, d2 as int) <= 2932896,
    ensures
        build_date_valid(date_text(y1, m1, d1)),
        build_date_valid(date_text(y2, m2, d2)),
        date_fields(date_text(y2, m2, d2)) == (y2 as int, m2 as int, d2 as int),
        date_number(date_text(y1, m1, d1)) < date_number(date_text(y2, m2, d2)),
{
    assert(days_before_year(10000) == 2932897);
    lemma_within_year(y2 as int, m2 as int, d2 as int);
    lemma_within_year(y1 as int, m1 as int, d1 as int);
    lemma_months_nonneg(y2 as int, m2 as int);
    if y2 > 10000 {
        lemma_years_grow(10000, y2 as int);
    }
    assert(y2 <= 9999);
    law_later_day_later_date(y1 as int, m1 as int, d1 as int, y2 as int, m2 as int, d2 as int);
    assert(y1 <= y2) by (nonlinear_arith)
        requires
            y1 * 10000 + m1 * 100 + d1 < y2 * 10000 + m2 * 100 + d2,
            1 <= m1 <= 12,
            1 <= m2 <= 12,
            1 <= d1 <= 31,
            1 <= d2 <= 31,
    ;
    law_build_date_round_trip(y1, m1, d1);
    law_build_date_round_trip(y2, m2, d2);
    law_later_day_later_date(y1 as int, m1 as int, d1 as int, y2 as int, m2 as int, d2 as int);
}

} // verus!
