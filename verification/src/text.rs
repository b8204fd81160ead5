//! Small verified helpers over strings, seen as sequences of characters.
//!
//! Everything here is stated over `Seq<char>`, the view of `str` and `String`.
//! Positions are character positions, never byte offsets.

use vstd::prelude::*;
use vstd::string::*;

verus! {

/// The position of the first `c` in `s` at or after `from`, or `s.len()` when there is none.
pub open spec fn spec_find_from(s: Seq<char>, from: int, c: char) -> int
    decreases s.len() - from,
{
    if from < 0 || from >= s.len() {
        s.len() as int
    } else if s[from] == c {
        from
    } else {
        spec_find_from(s, from + 1, c)
    }
}

/// The position of the last `c` in the first `upto` characters of `s`, or `-1`.
pub open spec fn spec_rfind(s: Seq<char>, upto: int, c: char) -> int
    decreases upto,
{
    if upto <= 0 || upto > s.len() {
        -1
    } else if s[upto - 1] == c {
        upto - 1
    } else {
        spec_rfind(s, upto - 1, c)
    }
}

/// Whether `lit` stands in `s` at position `pos`.
pub open spec fn spec_matches_at(s: Seq<char>, pos: int, lit: Seq<char>) -> bool {
    &&& 0 <= pos
    &&& pos + lit.len() <= s.len()
    &&& s.subrange(pos, pos + lit.len()) == lit
}

/// `s` with every `c` replaced by `with`.
pub open spec fn spec_replace_char(s: Seq<char>, c: char, with: Seq<char>) -> Seq<char>
    decreases s.len(),
{
    if s.len() == 0 {
        s
    } else if s.last() == c {
        spec_replace_char(s.drop_last(), c, with) + with
    } else {
        spec_replace_char(s.drop_last(), c, with).push(s.last())
    }
}

/// The items separated by `sep`.
pub open spec fn spec_join(items: Seq<Seq<char>>, sep: Seq<char>) -> Seq<char>
    decreases items.len(),
{
    if items.len() == 0 {
        Seq::empty()
    } else if items.len() == 1 {
        items[0]
    } else {
        spec_join(items.drop_last(), sep) + sep + items.last()
    }
}

/// The views of the strings of `v`.
pub open spec fn views(v: Seq<String>) -> Seq<Seq<char>> {
    v.map_values(|s: String| s@)
}

/// The position that is found lies from `from` on, holds a `c` unless it is the end,
/// and no `c` comes before it.
pub proof fn lemma_find_from_bounds(s: Seq<char>, from: int, c: char)
    requires
        0 <= from <= s.len(),
    ensures
        from <= spec_find_from(s, from, c) <= s.len(),
        spec_find_from(s, from, c) < s.len() ==> s[spec_find_from(s, from, c)] == c,
        forall|k: int| from <= k < spec_find_from(s, from, c) ==> s[k] != c,
    decreases s.len() - from,
{
    if from < s.len() && s[from] != c {
        lemma_find_from_bounds(s, from + 1, c);
    }
}

/// The position that is found lies before `upto`, holds a `c` unless it is `-1`, and
/// no `c` comes after it.
pub proof fn lemma_rfind_bounds(s: Seq<char>, upto: int, c: char)
    requires
        0 <= upto <= s.len(),
    ensures
        -1 <= spec_rfind(s, upto, c) < upto,
        spec_rfind(s, upto, c) >= 0 ==> s[spec_rfind(s, upto, c)] == c,
        forall|k: int| spec_rfind(s, upto, c) < k < upto ==> s[k] != c,
    decreases upto,
{
    if upto > 0 && s[upto - 1] != c {
        lemma_rfind_bounds(s, upto - 1, c);
    }
}

/// A stretch without `c` is left as it is by [`spec_replace_char`].
pub proof fn lemma_replace_char_run(s: Seq<char>, c: char, with: Seq<char>, from: int, to: int)
    requires
        0 <= from <= to <= s.len(),
        forall|k: int| from <= k < to ==> s[k] != c,
    ensures
        spec_replace_char(s.take(to), c, with) == spec_replace_char(s.take(from), c, with)
            + s.subrange(from, to),
    decreases to - from,
{
    if from == to {
        assert(s.subrange(from, to) =~= Seq::<char>::empty());
        assert(spec_replace_char(s.take(from), c, with) + Seq::<char>::empty()
            =~= spec_replace_char(s.take(from), c, with));
    } else {
        lemma_replace_char_run(s, c, with, from, to - 1);
        assert(s.take(to).drop_last() =~= s.take(to - 1));
        assert(s.take(to).last() == s[to - 1]);
        assert(s.subrange(from, to) =~= s.subrange(from, to - 1).push(s[to - 1]));
        assert((spec_replace_char(s.take(from), c, with) + s.subrange(from, to - 1)).push(s[to - 1])
            =~= spec_replace_char(s.take(from), c, with) + s.subrange(from, to));
    }
}

/// Joining texts does not depend on where the brackets stand.
pub proof fn lemma_concat_assoc(a: Seq<char>, b: Seq<char>, c: Seq<char>)
    ensures
        a + (b + c) == (a + b) + c,
{
    assert(a + (b + c) =~= (a + b) + c);
}

/// A text that is written is found where it was written.
pub proof fn lemma_matches_written(before: Seq<char>, lit: Seq<char>, after: Seq<char>)
    ensures
        spec_matches_at(before + lit + after, before.len() as int, lit),
{
    let s = before + lit + after;
    assert(s.subrange(before.len() as int, (before.len() + lit.len()) as int) =~= lit);
}

/// A text does not stand where its first character does not stand.
pub proof fn lemma_matches_first(s: Seq<char>, pos: int, lit: Seq<char>)
    requires
        0 <= pos,
        lit.len() > 0,
        pos >= s.len() || s[pos] != lit[0],
    ensures
        !spec_matches_at(s, pos, lit),
{
    if pos + lit.len() <= s.len() {
        assert(s.subrange(pos, pos + lit.len())[0] == s[pos]);
    }
}

/// The characters of `s`, in order.
pub fn to_chars(s: &str) -> (chars: Vec<char>)
    ensures
        chars@ == s@,
{
    let mut chars: Vec<char> = Vec::new();
    for c in it: s.chars()
        invariant
            chars@ == it.seq().take(it.index() as int),
            it.seq() == s@,
    {
        chars.push(c);
    }
    chars
}

/// Whether two string slices hold the same characters.
pub fn str_eq(a: &str, b: &str) -> (same: bool)
    ensures
        same == (a@ == b@),
{
    a.to_owned() == b.to_owned()
}

/// The characters of `s` from `from` up to `to`, as an owned string.
pub fn slice_to_string(s: &str, from: usize, to: usize) -> (out: String)
    requires
        from <= to <= s@.len(),
    ensures
        out@ == s@.subrange(from as int, to as int),
{
    s.substring_char(from, to).to_owned()
}

/// The position of the first `c` at or after `from`, or the length when there is none.
pub fn find_from(chars: &Vec<char>, from: usize, c: char) -> (pos: usize)
    requires
        from <= chars@.len(),
    ensures
        pos == spec_find_from(chars@, from as int, c),
        from <= pos <= chars@.len(),
{
    let mut pos: usize = from;
    while pos < chars.len() && chars[pos] != c
        invariant
            from <= pos <= chars@.len(),
            spec_find_from(chars@, from as int, c) == spec_find_from(chars@, pos as int, c),
        decreases chars@.len() - pos,
    {
        pos = pos + 1;
    }
    pos
}

/// The position of the last `c`, if there is one.
pub fn rfind(chars: &Vec<char>, c: char) -> (pos: Option<usize>)
    ensures
        match pos {
            Some(p) => p == spec_rfind(chars@, chars@.len() as int, c),
            None => spec_rfind(chars@, chars@.len() as int, c) == -1,
        },
{
    let mut upto: usize = chars.len();
    while upto > 0 && chars[upto - 1] != c
        invariant
            upto <= chars@.len(),
            spec_rfind(chars@, chars@.len() as int, c) == spec_rfind(chars@, upto as int, c),
        decreases upto,
    {
        upto = upto - 1;
    }
    if upto == 0 {
        None
    } else {
        Some(upto - 1)
    }
}

/// Whether `lit` stands in `chars` at position `pos`.
pub fn matches_at(chars: &Vec<char>, pos: usize, lit: &str) -> (found: bool)
    requires
        pos <= chars@.len(),
    ensures
        found == spec_matches_at(chars@, pos as int, lit@),
{
    let lit_chars = to_chars(lit);
    if lit_chars.len() > chars.len() - pos {
        return false;
    }
    let mut k: usize = 0;
    while k < lit_chars.len()
        invariant
            k <= lit_chars@.len(),
            pos + lit_chars@.len() <= chars@.len() <= usize::MAX,
            lit_chars@ == lit@,
            forall|j: int| 0 <= j < k ==> chars@[pos + j] == lit_chars@[j],
        decreases lit_chars@.len() - k,
    {
        if chars[pos + k] != lit_chars[k] {
            assert(chars@.subrange(pos as int, pos + lit@.len())[k as int] != lit@[k as int]);
            return false;
        }
        k = k + 1;
    }
    assert(chars@.subrange(pos as int, pos + lit@.len()) =~= lit@);
    true
}

/// The position after `lit`, where `lit` stands in `chars` at position `pos`.
pub fn literal_at(chars: &Vec<char>, pos: usize, lit: &str) -> (after: Option<usize>)
    requires
        pos <= chars@.len(),
    ensures
        match after {
            Some(next) => spec_matches_at(chars@, pos as int, lit@) && next == pos + lit@.len(),
            None => !spec_matches_at(chars@, pos as int, lit@),
        },
{
    if matches_at(chars, pos, lit) {
        let length = chars.len();
        Some(pos + lit.unicode_len())
    } else {
        None
    }
}

/// `s` with every `c` replaced by `with`.
pub fn replace_char(s: &str, c: char, with: &str) -> (out: String)
    ensures
        out@ == spec_replace_char(s@, c, with@),
{
    let chars = to_chars(s);
    let mut out = String::new();
    let mut pos: usize = 0;
    assert(s@.take(0) =~= Seq::<char>::empty());
    while pos < chars.len()
        invariant
            pos <= chars@.len(),
            chars@ == s@,
            out@ == spec_replace_char(s@.take(pos as int), c, with@),
        decreases chars@.len() - pos,
    {
        let next = find_from(&chars, pos, c);
        proof {
            lemma_find_from_bounds(chars@, pos as int, c);
            lemma_replace_char_run(s@, c, with@, pos as int, next as int);
        }
        out.append(s.substring_char(pos, next));
        if next < chars.len() {
            proof {
                assert(s@.take(next + 1).drop_last() =~= s@.take(next as int));
                assert(s@.take(next + 1).last() == c);
            }
            out.append(with);
            pos = next + 1;
        } else {
            pos = next;
        }
    }
    assert(s@.take(pos as int) =~= s@);
    out
}

/// The items separated by `sep`.
pub fn join(items: &Vec<String>, sep: &str) -> (out: String)
    ensures
        out@ == spec_join(views(items@), sep@),
{
    let mut out = String::new();
    let mut k: usize = 0;
    assert(views(items@).take(0) =~= Seq::<Seq<char>>::empty());
    while k < items.len()
        invariant
            k <= items@.len(),
            out@ == spec_join(views(items@).take(k as int), sep@),
        decreases items@.len() - k,
    {
        proof {
            let done = views(items@).take(k + 1);
            assert(done.drop_last() =~= views(items@).take(k as int));
            assert(done.last() == items@[k as int]@);
            if k == 0 {
                assert(done[0] == items@[0]@);
                assert(Seq::<char>::empty() + items@[0]@ =~= items@[0]@);
            }
        }
        if k > 0 {
            out.append(sep);
        }
        out.append(items[k].as_str());
        k = k + 1;
    }
    assert(views(items@).take(k as int) =~= views(items@));
    out
}

/// Whether `list` holds `text`.
pub fn contains(list: &Vec<String>, text: &str) -> (found: bool)
    ensures
        found == views(list@).contains(text@),
{
    let mut k: usize = 0;
    while k < list.len()
        invariant
            k <= list@.len(),
            forall|j: int| 0 <= j < k ==> views(list@)[j] != text@,
        decreases list@.len() - k,
    {
        if str_eq(list[k].as_str(), text) {
            assert(views(list@)[k as int] == text@);
            return true;
        }
        k = k + 1;
    }
    false
}

/// The character of the digit `d`.
pub open spec fn spec_digit(d: int) -> char {
    if d == 0 {
        '0'
    } else if d == 1 {
        '1'
    } else if d == 2 {
        '2'
    } else if d == 3 {
        '3'
    } else if d == 4 {
        '4'
    } else if d == 5 {
        '5'
    } else if d == 6 {
        '6'
    } else if d == 7 {
        '7'
    } else if d == 8 {
        '8'
    } else {
        '9'
    }
}

/// The decimal digits of `n`, without leading zeros.
pub open spec fn spec_decimal(n: nat) -> Seq<char>
    decreases n,
{
    if n < 10 {
        seq![spec_digit(n as int)]
    } else {
        spec_decimal(n / 10).push(spec_digit((n % 10) as int))
    }
}

/// A number has more than one digit exactly from ten on.
pub proof fn lemma_decimal_len(n: nat)
    ensures
        spec_decimal(n).len() >= 1,
        spec_decimal(n).len() == 1 <==> n < 10,
    decreases n,
{
    if n >= 10 {
        lemma_decimal_len(n / 10);
    }
}

/// Different digits have different characters.
pub proof fn lemma_digit_injective(x: int, y: int)
    requires
        0 <= x < 10,
        0 <= y < 10,
        spec_digit(x) == spec_digit(y),
    ensures
        x == y,
{
}

/// Different numbers have different digits.
pub proof fn lemma_decimal_injective(a: nat, b: nat)
    requires
        spec_decimal(a) == spec_decimal(b),
    ensures
        a == b,
    decreases a,
{
    lemma_decimal_len(a);
    lemma_decimal_len(b);
    if a < 10 {
        assert(spec_decimal(a)[0] == spec_digit(a as int));
        assert(spec_decimal(b)[0] == spec_digit(b as int));
        lemma_digit_injective(a as int, b as int);
    } else {
        let front_a = spec_decimal(a / 10);
        let front_b = spec_decimal(b / 10);
        assert(spec_decimal(a).last() == spec_digit((a % 10) as int));
        assert(spec_decimal(b).last() == spec_digit((b % 10) as int));
        assert(spec_decimal(a).drop_last() =~= front_a);
        assert(spec_decimal(b).drop_last() =~= front_b);
        lemma_digit_injective((a % 10) as int, (b % 10) as int);
        lemma_decimal_injective(a / 10, b / 10);
        assert(a == 10 * (a / 10) + a % 10);
        assert(b == 10 * (b / 10) + b % 10);
    }
}

fn digit(d: u128) -> (text: &'static str)
    requires
        d < 10,
    ensures
        text@ == seq![spec_digit(d as int)],
{
    let text = if d == 0 {
        "0"
    } else if d == 1 {
        "1"
    } else if d == 2 {
        "2"
    } else if d == 3 {
        "3"
    } else if d == 4 {
        "4"
    } else if d == 5 {
        "5"
    } else if d == 6 {
        "6"
    } else if d == 7 {
        "7"
    } else if d == 8 {
        "8"
    } else {
        "9"
    };
    proof {
        reveal_strlit("0");
        reveal_strlit("1");
        reveal_strlit("2");
        reveal_strlit("3");
        reveal_strlit("4");
        reveal_strlit("5");
        reveal_strlit("6");
        reveal_strlit("7");
        reveal_strlit("8");
        reveal_strlit("9");
        assert(text@ =~= seq![spec_digit(d as int)]);
    }
    text
}

/// The decimal digits of `n`, without leading zeros.
pub fn decimal(n: u128) -> (text: String)
    ensures
        text@ == spec_decimal(n as nat),
    decreases n,
{
    if n < 10 {
        digit(n).to_owned()
    } else {
        let mut text = decimal(n / 10);
        let last = digit(n % 10);
        text.append(last);
        assert(text@ =~= spec_decimal((n / 10) as nat).push(spec_digit((n % 10) as int)));
        text
    }
}

/// Whether `c` is ASCII whitespace: space, tab, line feed, form feed or carriage return.
pub open spec fn is_ascii_space(c: char) -> bool {
    c == ' ' || c == '\t' || c == '\n' || c == '\x0C' || c == '\r'
}

/// Whether `c` is whitespace: a character with the Unicode property `White_Space`.
pub open spec fn is_whitespace(c: char) -> bool {
    ||| ('\u{9}' <= c && c <= '\u{d}')
    ||| c == ' '
    ||| c == '\u{85}'
    ||| c == '\u{a0}'
    ||| c == '\u{1680}'
    ||| ('\u{2000}' <= c && c <= '\u{200a}')
    ||| c == '\u{2028}'
    ||| c == '\u{2029}'
    ||| c == '\u{202f}'
    ||| c == '\u{205f}'
    ||| c == '\u{3000}'
}

/// Whether `c` counts as a space: as ASCII whitespace, or as whitespace at large.
pub open spec fn is_space_of(c: char, ascii_only: bool) -> bool {
    if ascii_only {
        is_ascii_space(c)
    } else {
        is_whitespace(c)
    }
}

/// The first position at or after `from` that holds no space.
pub open spec fn spec_skip_spaces(s: Seq<char>, from: int, ascii_only: bool) -> int
    decreases s.len() - from,
{
    if from < 0 || from >= s.len() || !is_space_of(s[from], ascii_only) {
        from
    } else {
        spec_skip_spaces(s, from + 1, ascii_only)
    }
}

/// The end of `s` without its trailing spaces, but not before `floor`.
pub open spec fn spec_drop_spaces(s: Seq<char>, floor: int, upto: int, ascii_only: bool) -> int
    decreases upto,
{
    if upto <= floor || upto <= 0 || upto > s.len() || !is_space_of(s[upto - 1], ascii_only) {
        upto
    } else {
        spec_drop_spaces(s, floor, upto - 1, ascii_only)
    }
}

/// `s` without leading and trailing spaces.
pub open spec fn spec_trim_of(s: Seq<char>, ascii_only: bool) -> Seq<char> {
    let start = spec_skip_spaces(s, 0, ascii_only);
    s.subrange(start, spec_drop_spaces(s, start, s.len() as int, ascii_only))
}

/// `s` without leading and trailing ASCII whitespace.
pub open spec fn spec_trim_ascii(s: Seq<char>) -> Seq<char> {
    spec_trim_of(s, true)
}

/// `s` without leading and trailing whitespace.
pub open spec fn spec_trim(s: Seq<char>) -> Seq<char> {
    spec_trim_of(s, false)
}

/// `s` without trailing whitespace.
pub open spec fn spec_trim_end(s: Seq<char>) -> Seq<char> {
    s.take(spec_drop_spaces(s, 0, s.len() as int, false))
}

fn is_space(c: char, ascii_only: bool) -> (space: bool)
    ensures
        space == is_space_of(c, ascii_only),
{
    if ascii_only {
        c == ' ' || c == '\t' || c == '\n' || c == '\x0C' || c == '\r'
    } else {
        ('\u{9}' <= c && c <= '\u{d}') || c == ' ' || c == '\u{85}' || c == '\u{a0}' || c
            == '\u{1680}' || ('\u{2000}' <= c && c <= '\u{200a}') || c == '\u{2028}' || c
            == '\u{2029}' || c == '\u{202f}' || c == '\u{205f}' || c == '\u{3000}'
    }
}

fn skip_spaces(chars: &Vec<char>, ascii_only: bool) -> (start: usize)
    ensures
        start == spec_skip_spaces(chars@, 0, ascii_only),
        start <= chars@.len(),
{
    let mut start: usize = 0;
    while start < chars.len() && is_space(chars[start], ascii_only)
        invariant
            start <= chars@.len(),
            spec_skip_spaces(chars@, 0, ascii_only) == spec_skip_spaces(
                chars@,
                start as int,
                ascii_only,
            ),
        decreases chars@.len() - start,
    {
        start = start + 1;
    }
    start
}

fn drop_spaces(chars: &Vec<char>, floor: usize, ascii_only: bool) -> (end: usize)
    requires
        floor <= chars@.len(),
    ensures
        end == spec_drop_spaces(chars@, floor as int, chars@.len() as int, ascii_only),
        floor <= end <= chars@.len(),
{
    let mut end: usize = chars.len();
    while end > floor && is_space(chars[end - 1], ascii_only)
        invariant
            floor <= end <= chars@.len(),
            spec_drop_spaces(chars@, floor as int, chars@.len() as int, ascii_only)
                == spec_drop_spaces(chars@, floor as int, end as int, ascii_only),
        decreases end,
    {
        end = end - 1;
    }
    end
}

/// `s` without leading and trailing ASCII whitespace.
pub fn trim_ascii(s: &str) -> (trimmed: &str)
    ensures
        trimmed@ == spec_trim_ascii(s@),
{
    let chars = to_chars(s);
    let start = skip_spaces(&chars, true);
    let end = drop_spaces(&chars, start, true);
    s.substring_char(start, end)
}

/// `s` without leading and trailing whitespace.
pub fn trim(s: &str) -> (trimmed: &str)
    ensures
        trimmed@ == spec_trim(s@),
{
    let chars = to_chars(s);
    let start = skip_spaces(&chars, false);
    let end = drop_spaces(&chars, start, false);
    s.substring_char(start, end)
}

/// `s` without trailing whitespace.
pub fn trim_end(s: &str) -> (trimmed: &str)
    ensures
        trimmed@ == spec_trim_end(s@),
{
    let chars = to_chars(s);
    let end = drop_spaces(&chars, 0, false);
    let trimmed = s.substring_char(0, end);
    assert(trimmed@ =~= s@.take(end as int));
    trimmed
}

/// The lines of `s` from `from` on: each ends before a line feed or at the end of
/// `s`, and is taken without a carriage return before the line feed. What follows
/// the last line feed is a line only if it is not empty.
pub open spec fn spec_lines_from(s: Seq<char>, from: int) -> Seq<Seq<char>>
    decreases s.len() - from,
{
    if from < 0 || from >= s.len() {
        Seq::empty()
    } else {
        let end = spec_find_from(s, from, '\n');
        let line = if from < end < s.len() && s[end - 1] == '\r' {
            s.subrange(from, end - 1)
        } else {
            s.subrange(from, end)
        };
        if end >= s.len() || end < from {
            seq![line]
        } else {
            seq![line] + spec_lines_from(s, end + 1)
        }
    }
}

/// The lines of `s`.
pub open spec fn spec_lines(s: Seq<char>) -> Seq<Seq<char>> {
    spec_lines_from(s, 0)
}

/// The lines of `s`, without their line ends.
pub fn lines(s: &str) -> (found: Vec<String>)
    ensures
        views(found@) == spec_lines(s@),
{
    let chars = to_chars(s);
    let mut found: Vec<String> = Vec::new();
    let mut from: usize = 0;
    assert(Seq::<Seq<char>>::empty() + spec_lines_from(s@, 0) =~= spec_lines_from(s@, 0));
    while from < chars.len()
        invariant
            chars@ == s@,
            from <= chars@.len(),
            spec_lines(s@) == views(found@) + spec_lines_from(s@, from as int),
        decreases chars@.len() - from,
    {
        let end = find_from(&chars, from, '\n');
        let line = if from < end && end < chars.len() && chars[end - 1] == '\r' {
            slice_to_string(s, from, end - 1)
        } else {
            slice_to_string(s, from, end)
        };
        let ghost before = views(found@);
        let ghost rest = spec_lines_from(s@, from as int);
        found.push(line);
        proof {
            assert(views(found@) =~= before.push(line@));
            if end < chars@.len() {
                assert(before + (seq![line@] + spec_lines_from(s@, end + 1)) =~= before.push(line@)
                    + spec_lines_from(s@, end + 1));
            } else {
                assert(before + seq![line@] =~= before.push(line@) + Seq::<Seq<char>>::empty());
            }
        }
        if end < chars.len() {
            from = end + 1;
        } else {
            from = end;
        }
    }
    assert(views(found@) + Seq::<Seq<char>>::empty() =~= views(found@));
    found
}

/// Whether `s` begins with `prefix`.
pub fn has_prefix(s: &str, prefix: &str) -> (found: bool)
    ensures
        found == spec_matches_at(s@, 0, prefix@),
{
    let chars = to_chars(s);
    matches_at(&chars, 0, prefix)
}

/// Whether `s` ends with `suffix`.
pub open spec fn spec_has_suffix(s: Seq<char>, suffix: Seq<char>) -> bool {
    suffix.len() <= s.len() && s.skip(s.len() - suffix.len()) == suffix
}

/// Whether `s` ends with `suffix`.
pub fn has_suffix(s: &str, suffix: &str) -> (found: bool)
    ensures
        found == spec_has_suffix(s@, suffix@),
{
    let chars = to_chars(s);
    let length = suffix.unicode_len();
    if length > chars.len() {
        return false;
    }
    let found = matches_at(&chars, chars.len() - length, suffix);
    assert(s@.skip(s@.len() - suffix@.len()) =~= s@.subrange(
        s@.len() - suffix@.len(),
        s@.len() as int,
    ));
    found
}

/// Copies a list of strings.
pub fn clone_strings(list: &Vec<String>) -> (copy: Vec<String>)
    ensures
        views(copy@) == views(list@),
{
    let mut copy: Vec<String> = Vec::new();
    let mut k: usize = 0;
    while k < list.len()
        invariant
            k <= list@.len(),
            views(copy@) == views(list@).take(k as int),
        decreases list@.len() - k,
    {
        let ghost before = views(copy@);
        copy.push(list[k].clone());
        assert(views(copy@) =~= before.push(list@[k as int]@));
        assert(views(copy@) =~= views(list@).take(k + 1));
        k = k + 1;
    }
    assert(views(list@).take(k as int) =~= views(list@));
    copy
}

/// Adds copies of the strings of `more` to the end of `list`.
pub fn extend_strings(list: &mut Vec<String>, more: &Vec<String>)
    ensures
        views(final(list)@) == views(old(list)@) + views(more@),
{
    let mut k: usize = 0;
    assert(views(list@) + views(more@).take(0) =~= views(list@));
    while k < more.len()
        invariant
            k <= more@.len(),
            views(list@) == views(old(list)@) + views(more@).take(k as int),
        decreases more@.len() - k,
    {
        let ghost before = views(list@);
        list.push(more[k].clone());
        assert(views(list@) =~= before.push(more@[k as int]@));
        assert(views(list@) =~= views(old(list)@) + views(more@).take(k + 1));
        k = k + 1;
    }
    assert(views(more@).take(k as int) =~= views(more@));
}

/// Adds a copy of `text` to the end of `list`.
pub fn push_str(list: &mut Vec<String>, text: &str)
    ensures
        views(final(list)@) == views(old(list)@).push(text@),
{
    list.push(text.to_owned());
    assert(views(list@) =~= views(old(list)@).push(text@));
}

/// The list of two strings.
pub fn list2(a: &str, b: &str) -> (list: Vec<String>)
    ensures
        views(list@) == seq![a@, b@],
{
    let mut list: Vec<String> = Vec::new();
    list.push(a.to_owned());
    list.push(b.to_owned());
    assert(views(list@) =~= seq![a@, b@]);
    list
}

/// The list of three strings.
pub fn list3(a: &str, b: &str, c: &str) -> (list: Vec<String>)
    ensures
        views(list@) == seq![a@, b@, c@],
{
    let mut list = list2(a, b);
    push_str(&mut list, c);
    assert(views(list@) =~= seq![a@, b@, c@]);
    list
}

/// The list of four strings.
pub fn list4(a: &str, b: &str, c: &str, d: &str) -> (list: Vec<String>)
    ensures
        views(list@) == seq![a@, b@, c@, d@],
{
    let mut list = list3(a, b, c);
    push_str(&mut list, d);
    assert(views(list@) =~= seq![a@, b@, c@, d@]);
    list
}

/// The list of five strings.
pub fn list5(a: &str, b: &str, c: &str, d: &str, e: &str) -> (list: Vec<String>)
    ensures
        views(list@) == seq![a@, b@, c@, d@, e@],
{
    let mut list = list4(a, b, c, d);
    push_str(&mut list, e);
    assert(views(list@) =~= seq![a@, b@, c@, d@, e@]);
    list
}

/// The text before the first `c` and the text after it, if `s` holds a `c`.
pub open spec fn spec_split_once(s: Seq<char>, c: char) -> Option<(Seq<char>, Seq<char>)> {
    let at = spec_find_from(s, 0, c);
    if at < s.len() {
        Some((s.take(at), s.skip(at + 1)))
    } else {
        None
    }
}

/// The text before the first `c` and the text after it, if `s` holds a `c`.
pub fn split_once(s: &str, c: char) -> (parts: Option<(String, String)>)
    ensures
        match parts {
            Some((before, after)) => spec_split_once(s@, c) == Some((before@, after@)),
            None => spec_split_once(s@, c) is None,
        },
{
    let chars = to_chars(s);
    let at = find_from(&chars, 0, c);
    if at < chars.len() {
        let before = slice_to_string(s, 0, at);
        let after = slice_to_string(s, at + 1, chars.len());
        assert(before@ =~= s@.take(at as int));
        assert(after@ =~= s@.skip(at + 1));
        Some((before, after))
    } else {
        None
    }
}

} // verus!
