//! The command file of the controller feedback probe: each command is a
//! line of whitespace-separated words, a sequence number first, then what
//! to do to the virtual pad.
use vstd::prelude::*;
use crate::text::push_char;

verus! {

/// A character that separates words: the Unicode white space characters.
pub open spec fn is_space(c: char) -> bool {
    ||| ('\u{9}' <= c && c <= '\u{d}')
    ||| c == ' '
    ||| c == '\u{85}'
    ||| c == '\u{a0}'
    ||| c == '\u{1680}'
    ||| ('\u{2000}' <= c && c <= '\u{200a}')
    ||| c == '\u{2028}'
    ||| c == '\u{2029}'
    ||| c == '\u{202f}'
    ||| c == '\u{205f}'
    ||| c == '\u{3000}'
}

fn space(c: char) -> (r: bool)
    ensures
        r == is_space(c),
{
    ('\u{9}' <= c && c <= '\u{d}') || c == ' ' || c == '\u{85}' || c == '\u{a0}' || c == '\u{1680}' || ('\u{2000}'
        <= c && c <= '\u{200a}') || c == '\u{2028}' || c == '\u{2029}' || c == '\u{202f}' || c == '\u{205f}' || c
        == '\u{3000}'
}

/// The length of the word that starts `s`: up to the first white space.
pub open spec fn word_len(s: Seq<char>) -> nat
    decreases s.len(),
{
    if s.len() == 0 || is_space(s[0]) {
        0
    } else {
        1 + word_len(s.drop_first())
    }
}

/// The word that starts `s` is within it, ends at white space, and holds none.
pub proof fn lemma_word_len(s: Seq<char>)
    ensures
        word_len(s) <= s.len(),
        word_len(s) < s.len() ==> is_space(s[word_len(s) as int]),
        forall|j: int| 0 <= j < word_len(s) ==> !is_space(#[trigger] s[j]),
    decreases s.len(),
{
    if s.len() > 0 && !is_space(s[0]) {
        let t = s.drop_first();
        lemma_word_len(t);
        assert forall|j: int| 0 <= j < word_len(s) implies !is_space(#[trigger] s[j]) by {
            if j > 0 {
                assert(s[j] == t[j - 1]);
            }
        }
    }
}

/// The words of `s`, as `str::split_whitespace` gives them.
pub open spec fn words(s: Seq<char>) -> Seq<Seq<char>>
    decreases s.len(),
{
    if s.len() == 0 {
        Seq::empty()
    } else if is_space(s[0]) {
        words(s.drop_first())
    } else {
        let k = word_len(s);
        proof {
            lemma_word_len(s);
        }
        seq![s.take(k as int)] + words(s.skip(k as int))
    }
}

/// The words of `text`.
pub fn split_words(text: &str) -> (r: Vec<String>)
    ensures
        r@.map_values(|w: String| w@) == words(text@),
{
    let n = text.unicode_len();
    let mut r: Vec<String> = Vec::new();
    let mut i: usize = 0;
    proof {
        assert(text@.skip(0) =~= text@);
        assert(r@.map_values(|w: String| w@) + words(text@) =~= words(text@));
    }
    while i < n
        invariant
            n == text@.len(),
            i <= n,
            words(text@) == r@.map_values(|w: String| w@) + words(text@.skip(i as int)),
        decreases n - i,
    {
        let ghost rest = text@.skip(i as int);
        let c = text.get_char(i);
        if space(c) {
            assert(rest.drop_first() =~= text@.skip(i + 1));
            i = i + 1;
        } else {
            proof {
                lemma_word_len(rest);
            }
            let mut w = String::new();
            let mut j = i;
            while j < n && !space(text.get_char(j))
                invariant
                    n == text@.len(),
                    i <= j <= n,
                    rest == text@.skip(i as int),
                    j - i <= word_len(rest),
                    word_len(rest) <= rest.len(),
                    word_len(rest) < rest.len() ==> is_space(rest[word_len(rest) as int]),
                    forall|k: int| 0 <= k < word_len(rest) ==> !is_space(#[trigger] rest[k]),
                    w@ == text@.subrange(i as int, j as int),
                decreases n - j,
            {
                let d = text.get_char(j);
                proof {
                    if j - i == word_len(rest) {
                        assert(rest[j - i] == d);
                    }
                }
                push_char(&mut w, d);
                assert(text@.subrange(i as int, j as int).push(d) =~= text@.subrange(i as int, j + 1));
                j = j + 1;
            }
            proof {
                if j < n {
                    assert(is_space(text@[j as int]));
                    if j - i < word_len(rest) {
                        assert(rest[j - i] == text@[j as int]);
                    }
                }
                assert(j - i == word_len(rest));
                assert(w@ =~= rest.take(word_len(rest) as int));
                assert(rest.skip(word_len(rest) as int) =~= text@.skip(j as int));
            }
            let ghost before = r@.map_values(|w: String| w@);
            r.push(w);
            proof {
                assert(r@.map_values(|w: String| w@) =~= before.push(rest.take(word_len(rest) as int)));
                assert(before.push(rest.take(word_len(rest) as int)) + words(text@.skip(j as int)) =~= before + (
                seq![rest.take(word_len(rest) as int)] + words(text@.skip(j as int))));
            }
            i = j;
        }
    }
    proof {
        assert(text@.skip(n as int) =~= Seq::<char>::empty());
        assert(r@.map_values(|w: String| w@) + Seq::<Seq<char>>::empty() =~= r@.map_values(|w: String| w@));
    }
    r
}

/// A decimal digit.
pub open spec fn is_digit(c: char) -> bool {
    '0' <= c && c <= '9'
}

/// The value of a string of decimal digits.
pub open spec fn digits_value(ds: Seq<char>) -> nat
    decreases ds.len(),
{
    if ds.len() == 0 {
        0
    } else {
        digits_value(ds.drop_last()) * 10 + (ds.last() as nat - '0' as nat) as nat
    }
}

/// The length of the sign that starts `w`: one for a plus or minus, else none.
pub open spec fn sign_len(w: Seq<char>) -> int {
    if w.len() > 0 && (w[0] == '+' || w[0] == '-') {
        1
    } else {
        0
    }
}

/// Only decimal digits.
pub open spec fn all_digits(ds: Seq<char>) -> bool {
    forall|i: int| 0 <= i < ds.len() ==> is_digit(#[trigger] ds[i])
}

/// A number as `str::parse` reads it: an optional sign (a minus only where
/// `signed`), then one or more decimal digits.
pub open spec fn number_value(w: Seq<char>, signed: bool) -> Option<int> {
    let negative = w.len() > 0 && w[0] == '-';
    let ds = w.skip(sign_len(w));
    if ds.len() == 0 || (negative && !signed) || !all_digits(ds) {
        None
    } else if negative {
        Some(-(digits_value(ds) as int))
    } else {
        Some(digits_value(ds) as int)
    }
}

/// The number `w` stands for, if it is one and lies within `lo..=hi`.
pub open spec fn parsed(w: Seq<char>, signed: bool, lo: int, hi: int) -> Option<int> {
    match number_value(w, signed) {
        Some(v) => if lo <= v <= hi {
            Some(v)
        } else {
            None
        },
        None => None,
    }
}

/// Reads `w` as a number within `lo..=hi`, as `str::parse` does for an
/// integer type of that range.
pub fn parse_number(w: &str, signed: bool, lo: i64, hi: u64) -> (r: Option<i128>)
    requires
        lo <= 0,
    ensures
        match parsed(w@, signed, lo as int, hi as int) {
            Some(v) => r == Some(v as i128),
            None => r is None,
        },
{
    let n = w.unicode_len();
    let negative = n > 0 && w.get_char(0) == '-';
    let start: usize = if n > 0 && (w.get_char(0) == '+' || w.get_char(0) == '-') { 1 } else { 0 };
    let ghost ds = w@.skip(start as int);
    if start == n || (negative && !signed) {
        return None;
    }
    let limit: u128 = if negative { (0 - lo as i128) as u128 } else { hi as u128 };
    let mut value: u128 = 0;
    let mut too_big = false;
    let mut i = start;
    while i < n
        invariant
            start <= i <= n,
            n == w@.len(),
            ds == w@.skip(start as int),
            start as int == sign_len(w@),
            negative == (w@.len() > 0 && w@[0] == '-'),
            negative ==> signed,
            limit == if negative { -lo } else { hi as int },
            lo <= 0,
            start < n,
            limit <= 0x1_0000_0000_0000_0000,
            forall|k: int| 0 <= k < i - start ==> is_digit(#[trigger] ds[k]),
            !too_big ==> value == digits_value(ds.take(i - start)) && value <= limit,
            too_big ==> digits_value(ds.take(i - start)) > limit,
        decreases n - i,
    {
        let c = w.get_char(i);
        if !('0' <= c && c <= '9') {
            assert(!is_digit(ds[i - start]));
            assert(!all_digits(ds));
            return None;
        }
        let ghost prev = ds.take(i - start);
        assert(ds.take(i - start + 1).drop_last() =~= prev);
        let d = (c as u32 - '0' as u32) as u128;
        if !too_big {
            if d > limit || value > (limit - d) / 10 {
                assert(value * 10 + d > limit) by (nonlinear_arith)
                    requires
                        d > limit || value > (limit - d) / 10,
                        0 <= d <= 9,
                        0 <= value,
                ;
                too_big = true;
            } else {
                assert(value * 10 + d <= limit) by (nonlinear_arith)
                    requires
                        value <= (limit - d) / 10,
                        d <= limit,
                ;
                value = value * 10 + d;
            }
        } else {
            assert(digits_value(prev) * 10 + d > limit) by (nonlinear_arith)
                requires
                    digits_value(prev) > limit,
                    0 <= d,
            ;
        }
        i = i + 1;
    }
    assert(ds.take(n - start) =~= ds);
    if too_big {
        return None;
    }
    if negative {
        Some(0 - value as i128)
    } else {
        Some(value as i128)
    }
}

/// What a probe command asks of the virtual pad.
#[derive(Clone, Copy, Debug, PartialEq, Eq, Structural)]
pub enum ProbeRequest {
    Button { index: i32, value: u8 },
    Axis { index: i32, value: i16 },
    Detach,
    Attach,
}

/// What to do with the command file's text.
#[derive(Clone, Copy, Debug, PartialEq, Eq, Structural)]
pub enum ProbeCommand {
    /// Nothing yet: no new sequence number first, or the line is incomplete.
    Wait,
    /// Command `seq`: run `request`, or answer that it is not valid (`None`).
    Run { seq: u64, request: Option<ProbeRequest> },
}

/// What command text `text` asks, given the last sequence number run and
/// whether the pad is attached: a first word that is a sequence number past
/// `last`, on a line ended by a line feed, then `button N V` (N below 15, V
/// 0 or 1) or `axis N V` (N below 6, V an `i16`) for an attached pad,
/// `detach` for an attached pad or `attach` for a detached one.
pub open spec fn command_of(text: Seq<char>, last: u64, attached: bool) -> ProbeCommand {
    let ws = words(text);
    let seq = if ws.len() > 0 { parsed(ws[0], false, 0, u64::MAX as int) } else { None };
    if seq is None || seq->0 <= last || text.len() == 0 || text.last() != '\n' {
        ProbeCommand::Wait
    } else {
        let kind = if ws.len() > 1 { ws[1] } else { Seq::empty() };
        let request = if kind == seq!['b', 'u', 't', 't', 'o', 'n'] && ws.len() == 4 && attached {
            match (parsed(ws[2], true, i32::MIN as int, i32::MAX as int), parsed(ws[3], false, 0, 255)) {
                (Some(n), Some(v)) => if 0 <= n < 15 && v <= 1 {
                    Some(ProbeRequest::Button { index: n as i32, value: v as u8 })
                } else {
                    None
                },
                _ => None,
            }
        } else if kind == seq!['a', 'x', 'i', 's'] && ws.len() == 4 && attached {
            match (parsed(ws[2], true, i32::MIN as int, i32::MAX as int), parsed(ws[3], true, -32768, 32767)) {
                (Some(n), Some(v)) => if 0 <= n < 6 {
                    Some(ProbeRequest::Axis { index: n as i32, value: v as i16 })
                } else {
                    None
                },
                _ => None,
            }
        } else if kind == seq!['d', 'e', 't', 'a', 'c', 'h'] && attached {
            Some(ProbeRequest::Detach)
        } else if kind == seq!['a', 't', 't', 'a', 'c', 'h'] && !attached {
            Some(ProbeRequest::Attach)
        } else {
            None
        };
        ProbeCommand::Run { seq: seq->0 as u64, request }
    }
}

fn word_is(w: &String, name: &str) -> (r: bool)
    ensures
        r == (w@ == name@),
{
    crate::text::str_eq(w.as_str(), name)
}

/// Reads the probe's command text.
pub fn decode_command(text: &str, last: u64, attached: bool) -> (r: ProbeCommand)
    ensures
        r == command_of(text@, last, attached),
{
    let ws = split_words(text);
    let ghost views = ws@.map_values(|w: String| w@);
    assert(views.len() == ws@.len());
    let seq = if ws.len() > 0 {
        assert(views[0] == ws@[0]@);
        parse_number(ws[0].as_str(), false, 0, u64::MAX)
    } else {
        None
    };
    let n = text.unicode_len();
    let seq = match seq {
        Some(s) => s,
        None => return ProbeCommand::Wait,
    };
    if seq <= last as i128 || n == 0 || text.get_char(n - 1) != '\n' {
        return ProbeCommand::Wait;
    }
    proof {
        reveal_strlit("button");
        reveal_strlit("axis");
        reveal_strlit("detach");
        reveal_strlit("attach");
        if ws@.len() > 1 {
            assert(views[1] == ws@[1]@);
        }
        if ws@.len() == 4 {
            assert(views[2] == ws@[2]@);
            assert(views[3] == ws@[3]@);
        }
    }
    let request = if ws.len() > 1 && word_is(&ws[1], "button") && ws.len() == 4 && attached {
        match (parse_number(ws[2].as_str(), true, i32::MIN as i64, i32::MAX as u64), parse_number(ws[3].as_str(), false, 0, 255)) {
            (Some(index), Some(value)) => if 0 <= index && index < 15 && value <= 1 {
                Some(ProbeRequest::Button { index: index as i32, value: value as u8 })
            } else {
                None
            },
            _ => None,
        }
    } else if ws.len() > 1 && word_is(&ws[1], "axis") && ws.len() == 4 && attached {
        match (parse_number(ws[2].as_str(), true, i32::MIN as i64, i32::MAX as u64), parse_number(ws[3].as_str(), true, -32768, 32767)) {
            (Some(index), Some(value)) => if 0 <= index && index < 6 {
                Some(ProbeRequest::Axis { index: index as i32, value: value as i16 })
            } else {
                None
            },
            _ => None,
        }
    } else if ws.len() > 1 && word_is(&ws[1], "detach") && attached {
        Some(ProbeRequest::Detach)
    } else if ws.len() > 1 && word_is(&ws[1], "attach") && !attached {
        Some(ProbeRequest::Attach)
    } else {
        None
    };
    proof {
        assert("button"@ =~= seq!['b', 'u', 't', 't', 'o', 'n']);
        assert("axis"@ =~= seq!['a', 'x', 'i', 's']);
        assert("detach"@ =~= seq!['d', 'e', 't', 'a', 'c', 'h']);
        assert("attach"@ =~= seq!['a', 't', 't', 'a', 'c', 'h']);
    }
    ProbeCommand::Run { seq: seq as u64, request }
}

/// A command runs once: once its number is the last one run, the same text
/// asks nothing more, whatever became of the pad.
pub proof fn law_command_runs_once(text: Seq<char>, last: u64, attached: bool, now_attached: bool)
    requires
        command_of(text, last, attached) is Run,
    ensures
        command_of(text, command_of(text, last, attached)->seq, now_attached) == ProbeCommand::Wait,
        command_of(text, last, attached)->seq > last,
{
}

/// Only a line ended by a line feed is taken.
pub proof fn law_incomplete_lines_wait(text: Seq<char>, last: u64, attached: bool)
    requires
        text.len() == 0 || text.last() != '\n',
    ensures
        command_of(text, last, attached) == ProbeCommand::Wait,
{
}

} // verus!
