//! The status line of an HTTP response: which responses a client accepts.
//!
//! A response is accepted when the second whitespace-separated word of its
//! first line reads as a `u16` in `200..399`. Whitespace is Unicode
//! `White_Space`, as `str::split_whitespace` uses it, and a word reads as a
//! `u16` as `str::parse::<u16>` reads it: an optional `+`, then one or more
//! ASCII digits whose value is at most 65535.
use vstd::prelude::*;

verus! {

/// The Unicode `White_Space` property (what `char::is_whitespace` tests).
pub open spec fn is_white_space(c: char) -> bool {
    let u = c as u32;
    ||| 0x09 <= u <= 0x0d
    ||| u == 0x20
    ||| u == 0x85
    ||| u == 0xa0
    ||| u == 0x1680
    ||| 0x2000 <= u <= 0x200a
    ||| u == 0x2028
    ||| u == 0x2029
    ||| u == 0x202f
    ||| u == 0x205f
    ||| u == 0x3000
}

/// The index of the first line feed of `s` at or after `i`, or `s.len()`.
pub open spec fn line_end(s: Seq<char>, i: int) -> int
    decreases s.len() - i,
{
    if i < 0 || i >= s.len() {
        s.len() as int
    } else if s[i] == '\n' {
        i
    } else {
        line_end(s, i + 1)
    }
}

/// The first line of `s`: what comes before its first line feed.
/// (A carriage return before the line feed is whitespace, so it never
/// belongs to a word.)
pub open spec fn first_line(s: Seq<char>) -> Seq<char> {
    s.take(line_end(s, 0))
}

/// The first index at or after `i` that holds no whitespace, or `s.len()`.
pub open spec fn skip_white(s: Seq<char>, i: int) -> int
    decreases s.len() - i,
{
    if i < 0 || i >= s.len() {
        s.len() as int
    } else if is_white_space(s[i]) {
        skip_white(s, i + 1)
    } else {
        i
    }
}

/// The first index at or after `i` that holds whitespace, or `s.len()`.
pub open spec fn skip_word(s: Seq<char>, i: int) -> int
    decreases s.len() - i,
{
    if i < 0 || i >= s.len() {
        s.len() as int
    } else if is_white_space(s[i]) {
        i
    } else {
        skip_word(s, i + 1)
    }
}

/// The second whitespace-separated word of `line`, if it has two.
pub open spec fn second_word(line: Seq<char>) -> Option<Seq<char>> {
    let a = skip_white(line, 0);
    let b = skip_word(line, a);
    let c = skip_white(line, b);
    let d = skip_word(line, c);
    if c < line.len() {
        Some(line.subrange(c, d))
    } else {
        None
    }
}

pub open spec fn is_ascii_digit(c: char) -> bool {
    '0' as u32 <= c as u32 <= '9' as u32
}

/// The value of a string of decimal digits.
pub open spec fn decimal_value(d: Seq<char>) -> int
    decreases d.len(),
{
    if d.len() == 0 {
        0
    } else {
        decimal_value(d.drop_last()) * 10 + (d.last() as u32 - '0' as u32)
    }
}

/// The digits of a word that reads as an unsigned number: the word
/// without its leading `+`, if it has one.
pub open spec fn unsigned_digits(word: Seq<char>) -> Seq<char> {
    if word.len() > 0 && word[0] == '+' {
        word.drop_first()
    } else {
        word
    }
}

pub open spec fn all_ascii_digits(d: Seq<char>) -> bool {
    forall|i: int| 0 <= i < d.len() ==> is_ascii_digit(#[trigger] d[i])
}

/// `word` read as a `u16`, as `str::parse::<u16>` reads it.
pub open spec fn parse_u16(word: Seq<char>) -> Option<u16> {
    let digits = unsigned_digits(word);
    if digits.len() > 0 && all_ascii_digits(digits) && decimal_value(digits) <= 65535 {
        Some(decimal_value(digits) as u16)
    } else {
        None
    }
}

/// The status code of a response: its first line's second word read as a `u16`.
pub open spec fn status_code(response: Seq<char>) -> Option<u16> {
    match second_word(first_line(response)) {
        Some(w) => parse_u16(w),
        None => None,
    }
}

/// A response is accepted when its status code is in `200..399`.
pub open spec fn accepts_status(response: Seq<char>) -> bool {
    match status_code(response) {
        Some(code) => 200 <= code < 399,
        None => false,
    }
}

/// Whether `c` has the Unicode `White_Space` property.
pub fn char_is_white_space(c: char) -> (b: bool)
    ensures
        b == is_white_space(c),
{
    let u = c as u32;
    (0x09 <= u && u <= 0x0d) || u == 0x20 || u == 0x85 || u == 0xa0 || u == 0x1680 || (0x2000 <= u
        && u <= 0x200a) || u == 0x2028 || u == 0x2029 || u == 0x202f || u == 0x205f || u == 0x3000
}

/// The characters of the first line of `s`.
pub fn first_line_chars(s: &str) -> (line: Vec<char>)
    ensures
        line@ == first_line(s@),
{
    let mut line: Vec<char> = Vec::new();
    for c in it: s.chars()
        invariant_except_break
            it.seq() == s@,
            line@ == it.seq().take(it.index()),
            line_end(s@, 0) == line_end(s@, it.index()),
        ensures
            line@ == first_line(s@),
    {
        if c == '\n' {
            break;
        }
        line.push(c);
    }
    line
}

/// `skip_white` on a vector.
fn skip_white_from(v: &Vec<char>, i: usize) -> (j: usize)
    requires
        i <= v@.len(),
    ensures
        j == skip_white(v@, i as int),
        i <= j <= v@.len(),
{
    let mut j = i;
    while j < v.len() && char_is_white_space(v[j])
        invariant
            i <= j <= v@.len(),
            skip_white(v@, i as int) == skip_white(v@, j as int),
        decreases v@.len() - j,
    {
        j = j + 1;
    }
    j
}

/// `skip_word` on a vector.
fn skip_word_from(v: &Vec<char>, i: usize) -> (j: usize)
    requires
        i <= v@.len(),
    ensures
        j == skip_word(v@, i as int),
        i <= j <= v@.len(),
{
    let mut j = i;
    while j < v.len() && !char_is_white_space(v[j])
        invariant
            i <= j <= v@.len(),
            skip_word(v@, i as int) == skip_word(v@, j as int),
        decreases v@.len() - j,
    {
        j = j + 1;
    }
    j
}

/// The value of a string of digits is at least that of each of its prefixes.
proof fn lemma_decimal_value_prefix(d: Seq<char>, k: int)
    requires
        0 <= k <= d.len(),
        forall|i: int| 0 <= i < d.len() ==> is_ascii_digit(#[trigger] d[i]),
    ensures
        decimal_value(d.take(k)) <= decimal_value(d),
        0 <= decimal_value(d.take(k)),
    decreases d.len(),
{
    if k < d.len() {
        let p = d.drop_last();
        assert forall|i: int| 0 <= i < p.len() implies is_ascii_digit(#[trigger] p[i]) by {
            assert(p[i] == d[i]);
        }
        lemma_decimal_value_prefix(p, k);
        lemma_decimal_value_prefix(p, p.len() as int);
        assert(p.take(k) =~= d.take(k));
        assert(p.take(p.len() as int) =~= p);
        assert(is_ascii_digit(d[d.len() - 1]));
    } else {
        assert(d.take(k) =~= d);
        if d.len() > 0 {
            let p = d.drop_last();
            assert forall|i: int| 0 <= i < p.len() implies is_ascii_digit(#[trigger] p[i]) by {
                assert(p[i] == d[i]);
            }
            lemma_decimal_value_prefix(p, p.len() as int);
            assert(p.take(p.len() as int) =~= p);
            assert(is_ascii_digit(d[d.len() - 1]));
        }
    }
}

/// Reads `v[start..end]` as a `u16`, as `str::parse::<u16>` does.
fn parse_u16_range(v: &Vec<char>, start: usize, end: usize) -> (r: Option<u16>)
    requires
        start <= end <= v@.len(),
    ensures
        r == parse_u16(v@.subrange(start as int, end as int)),
{
    let ghost word = v@.subrange(start as int, end as int);
    let first = if start < end && v[start] == '+' {
        start + 1
    } else {
        start
    };
    let ghost digits = v@.subrange(first as int, end as int);
    assert(digits =~= unsigned_digits(word));
    if first == end {
        return None;
    }
    let mut value: u32 = 0;
    let mut k = first;
    while k < end
        invariant
            start <= first <= k <= end <= v@.len(),
            first < end,
            digits == v@.subrange(first as int, end as int),
            word == v@.subrange(start as int, end as int),
            digits == unsigned_digits(word),
            forall|i: int| first <= i < k ==> is_ascii_digit(#[trigger] v@[i]),
            value as int == decimal_value(v@.subrange(first as int, k as int)),
            value <= 65535,
        decreases end - k,
    {
        let c = v[k];
        if !('0' as u32 <= c as u32 && c as u32 <= '9' as u32) {
            assert(!is_ascii_digit(digits[k - first]));
            return None;
        }
        let ghost prev = v@.subrange(first as int, k as int);
        let ghost next = v@.subrange(first as int, k + 1);
        assert(next.drop_last() =~= prev);
        value = value * 10 + (c as u32 - '0' as u32);
        k = k + 1;
        if value > 65535 {
            proof {
                if all_ascii_digits(digits) {
                    lemma_decimal_value_prefix(digits, (k - first) as int);
                    assert(digits.take((k - first) as int) =~= next);
                }
            }
            return None;
        }
    }
    assert(v@.subrange(first as int, k as int) =~= digits);
    assert forall|i: int| 0 <= i < digits.len() implies is_ascii_digit(#[trigger] digits[i]) by {
        assert(digits[i] == v@[first + i]);
    }
    Some(value as u16)
}

/// The status code of a response, computed from the characters of its first line.
pub fn read_status_code(response: &str) -> (code: Option<u16>)
    ensures
        code == status_code(response@),
{
    let line = first_line_chars(response);
    let a = skip_white_from(&line, 0);
    let b = skip_word_from(&line, a);
    let c = skip_white_from(&line, b);
    let d = skip_word_from(&line, c);
    if c < line.len() {
        parse_u16_range(&line, c, d)
    } else {
        None
    }
}

/// A response is accepted exactly when its first line's second word reads
/// as a status code in `200..399`: every other code (a 1xx, a 399, a 4xx or
/// 5xx refusal) and every status line without a code is refused.
pub proof fn lemma_accepts_exactly_success_codes(response: Seq<char>)
    ensures
        accepts_status(response) <==> (status_code(response) is Some && 200
            <= status_code(response)->Some_0 && status_code(response)->Some_0 < 399),
        status_code(response) matches Some(c) && 400 <= c < 600 ==> !accepts_status(response),
        status_code(response) is None ==> !accepts_status(response),
{
}

/// `skip_white` passes over a run of whitespace.
proof fn lemma_skip_white_run(s: Seq<char>, i: int, k: int)
    requires
        0 <= i <= k <= s.len(),
        forall|j: int| i <= j < k ==> is_white_space(#[trigger] s[j]),
    ensures
        skip_white(s, i) == skip_white(s, k),
    decreases k - i,
{
    if i < k {
        lemma_skip_white_run(s, i + 1, k);
    }
}

/// `skip_word` passes over a run without whitespace.
proof fn lemma_skip_word_run(s: Seq<char>, i: int, k: int)
    requires
        0 <= i <= k <= s.len(),
        forall|j: int| i <= j < k ==> !is_white_space(#[trigger] s[j]),
    ensures
        skip_word(s, i) == skip_word(s, k),
    decreases k - i,
{
    if i < k {
        lemma_skip_word_run(s, i + 1, k);
    }
}

/// `line_end` passes over a run without line feeds.
proof fn lemma_line_end_run(s: Seq<char>, i: int, k: int)
    requires
        0 <= i <= k <= s.len(),
        forall|j: int| i <= j < k ==> #[trigger] s[j] != '\n',
    ensures
        line_end(s, i) == line_end(s, k),
    decreases k - i,
{
    if i < k {
        lemma_line_end_run(s, i + 1, k);
    }
}

/// A status line split into its parts: leading whitespace, a first word,
/// whitespace, a second word, and then nothing or whitespace and anything.
/// Its second word is the second of these parts.
pub proof fn lemma_second_word_of_line(
    lead: Seq<char>,
    first: Seq<char>,
    sep: Seq<char>,
    second: Seq<char>,
    rest: Seq<char>,
)
    requires
        forall|j: int| 0 <= j < lead.len() ==> is_white_space(#[trigger] lead[j]),
        first.len() > 0,
        forall|j: int| 0 <= j < first.len() ==> !is_white_space(#[trigger] first[j]),
        sep.len() > 0,
        forall|j: int| 0 <= j < sep.len() ==> is_white_space(#[trigger] sep[j]),
        second.len() > 0,
        forall|j: int| 0 <= j < second.len() ==> !is_white_space(#[trigger] second[j]),
        rest.len() == 0 || is_white_space(rest[0]),
    ensures
        second_word(lead + first + sep + second + rest) == Some(second),
{
    let line = lead + first + sep + second + rest;
    let a = lead.len() as int;
    let b = a + first.len();
    let c = b + sep.len();
    let d = c + second.len();
    assert forall|j: int| 0 <= j < a implies is_white_space(#[trigger] line[j]) by {
        assert(line[j] == lead[j]);
    }
    lemma_skip_white_run(line, 0, a);
    assert(line[a] == first[0]);
    assert forall|j: int| a <= j < b implies !is_white_space(#[trigger] line[j]) by {
        assert(line[j] == first[j - a]);
    }
    lemma_skip_word_run(line, a, b);
    assert(line[b] == sep[0]);
    assert forall|j: int| b <= j < c implies is_white_space(#[trigger] line[j]) by {
        assert(line[j] == sep[j - b]);
    }
    lemma_skip_white_run(line, b, c);
    assert(line[c] == second[0]);
    assert forall|j: int| c <= j < d implies !is_white_space(#[trigger] line[j]) by {
        assert(line[j] == second[j - c]);
    }
    lemma_skip_word_run(line, c, d);
    if rest.len() > 0 {
        assert(line[d] == rest[0]);
    }
    assert(line.subrange(c, d) =~= second);
}

/// The status code is read from the first line alone: whatever follows the
/// first line feed does not change it.
pub proof fn lemma_status_code_reads_first_line(line: Seq<char>, rest: Seq<char>)
    requires
        forall|j: int| 0 <= j < line.len() ==> #[trigger] line[j] != '\n',
    ensures
        status_code(line + seq!['\n'] + rest) == status_code(line),
        first_line(line + seq!['\n'] + rest) == line,
{
    let s = line + seq!['\n'] + rest;
    assert forall|j: int| 0 <= j < line.len() implies #[trigger] s[j] != '\n' by {
        assert(s[j] == line[j]);
    }
    lemma_line_end_run(s, 0, line.len() as int);
    assert(s[line.len() as int] == '\n');
    assert(s.take(line.len() as int) =~= line);
    lemma_line_end_run(line, 0, line.len() as int);
    assert(line.take(line.len() as int) =~= line);
}

/// A three-digit word reads as the number its digits spell, with or
/// without a leading `+`; a leading `-` is no number.
pub proof fn lemma_three_digit_code(x: char, y: char, z: char)
    requires
        is_ascii_digit(x),
        is_ascii_digit(y),
        is_ascii_digit(z),
    ensures
        ({
            let v = 100 * (x as u32 - '0' as u32) + 10 * (y as u32 - '0' as u32) + (z as u32
                - '0' as u32);
            &&& parse_u16(seq![x, y, z]) == Some(v as u16)
            &&& parse_u16(seq!['+', x, y, z]) == Some(v as u16)
            &&& parse_u16(seq!['-', x, y, z]) is None
        }),
{
    let w = seq![x, y, z];
    assert(w.drop_last() =~= seq![x, y]);
    assert(seq![x, y].drop_last() =~= seq![x]);
    assert(seq![x].drop_last() =~= Seq::<char>::empty());
    assert(decimal_value(Seq::<char>::empty()) == 0);
    assert(decimal_value(seq![x]) == x as u32 - '0' as u32);
    assert(decimal_value(seq![x, y]) == 10 * (x as u32 - '0' as u32) + (y as u32 - '0' as u32));
    assert(decimal_value(w) == 100 * (x as u32 - '0' as u32) + 10 * (y as u32 - '0' as u32) + (z
        as u32 - '0' as u32));
    assert(unsigned_digits(w) == w);
    assert(seq!['+', x, y, z].drop_first() =~= w);
    assert(unsigned_digits(seq!['+', x, y, z]) == w);
    let m = seq!['-', x, y, z];
    assert(unsigned_digits(m) == m);
    assert(!is_ascii_digit(m[0]));
}

} // verus!
