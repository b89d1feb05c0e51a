//! Character-level scanning primitives.
//!
//! Every primitive exists twice: a spec function over a sequence of
//! characters, which is the mathematical definition of the lexical
//! grammar, and an exec mirror proved to return exactly the spec value.
//! All primitives work on a window `[pos, end)` of the full source text.

use vstd::prelude::*;

verus! {

/// Horizontal whitespace. A carriage return counts, so that lines of a
/// file with CRLF endings scan like their LF counterparts.
pub open spec fn is_space(c: char) -> bool {
    c == ' ' || c == '\t' || c == '\r'
}

pub open spec fn is_digit(c: char) -> bool {
    c == '0' || c == '1' || c == '2' || c == '3' || c == '4' || c == '5' || c == '6' || c == '7'
        || c == '8' || c == '9'
}

pub open spec fn digit_val(c: char) -> int {
    if c == '0' {
        0
    } else if c == '1' {
        1
    } else if c == '2' {
        2
    } else if c == '3' {
        3
    } else if c == '4' {
        4
    } else if c == '5' {
        5
    } else if c == '6' {
        6
    } else if c == '7' {
        7
    } else if c == '8' {
        8
    } else {
        9
    }
}

/// A character that may stand in a node name: anything but whitespace,
/// a colon, or a line break.
pub open spec fn is_name_char(c: char) -> bool {
    !is_space(c) && c != ':' && c != '\n'
}

/// A character that may stand in a bare token (a path, a metric name,
/// a span id): anything but whitespace or a line break.
pub open spec fn is_token_char(c: char) -> bool {
    !is_space(c) && c != '\n'
}

/// Index of the first non-whitespace character in `[pos, end)`, or `end`.
pub open spec fn sp_skip_ws(s: Seq<char>, end: int, pos: int) -> int
    decreases end - pos,
{
    if pos < end && 0 <= pos < s.len() && is_space(s[pos]) {
        sp_skip_ws(s, end, pos + 1)
    } else {
        pos
    }
}

pub proof fn lemma_skip_ws_bounds(s: Seq<char>, end: int, pos: int)
    requires
        0 <= pos <= end <= s.len(),
    ensures
        pos <= sp_skip_ws(s, end, pos) <= end,
    decreases end - pos,
{
    if pos < end && is_space(s[pos]) {
        lemma_skip_ws_bounds(s, end, pos + 1);
    }
}

/// Index of the first line break at or after `pos`, or the text length.
pub open spec fn sp_line_end(s: Seq<char>, pos: int) -> int
    decreases s.len() - pos,
{
    if 0 <= pos < s.len() {
        if s[pos] == '\n' {
            pos
        } else {
            sp_line_end(s, pos + 1)
        }
    } else {
        s.len() as int
    }
}

pub proof fn lemma_line_end_bounds(s: Seq<char>, pos: int)
    requires
        0 <= pos <= s.len(),
    ensures
        pos <= sp_line_end(s, pos) <= s.len(),
        sp_line_end(s, pos) < s.len() ==> s[sp_line_end(s, pos)] == '\n',
        forall|k: int| pos <= k < sp_line_end(s, pos) ==> s[k] != '\n',
    decreases s.len() - pos,
{
    if pos < s.len() && s[pos] != '\n' {
        lemma_line_end_bounds(s, pos + 1);
    }
}

/// The end of the line `[start, end)` once trailing whitespace is dropped.
pub open spec fn sp_rtrim(s: Seq<char>, start: int, end: int) -> int
    decreases end - start,
{
    if start < end && 0 <= end - 1 < s.len() && is_space(s[end - 1]) {
        sp_rtrim(s, start, end - 1)
    } else {
        end
    }
}

/// End of the maximal run of name characters starting at `pos`.
pub open spec fn sp_name_run(s: Seq<char>, end: int, pos: int) -> int
    decreases end - pos,
{
    if pos < end && 0 <= pos < s.len() && is_name_char(s[pos]) {
        sp_name_run(s, end, pos + 1)
    } else {
        pos
    }
}

/// End of the maximal run of token characters starting at `pos`.
pub open spec fn sp_token_run(s: Seq<char>, end: int, pos: int) -> int
    decreases end - pos,
{
    if pos < end && 0 <= pos < s.len() && is_token_char(s[pos]) {
        sp_token_run(s, end, pos + 1)
    } else {
        pos
    }
}

/// End of the maximal run of decimal digits starting at `pos`.
pub open spec fn sp_digit_run(s: Seq<char>, end: int, pos: int) -> int
    decreases end - pos,
{
    if pos < end && 0 <= pos < s.len() && is_digit(s[pos]) {
        sp_digit_run(s, end, pos + 1)
    } else {
        pos
    }
}

/// Value of the digit run `[a, b)`, read as a decimal numeral.
pub open spec fn sp_digits_val(s: Seq<char>, a: int, b: int) -> int
    decreases b - a,
{
    if a < b {
        sp_digits_val(s, a, b - 1) * 10 + digit_val(s[b - 1])
    } else {
        0
    }
}

/// Keyword match: the window starts with the word `w` at `pos`, followed
/// by whitespace or the end of the window. Yields the position after `w`.
pub open spec fn sp_word(s: Seq<char>, end: int, pos: int, w: Seq<char>) -> Option<int> {
    if 0 <= pos && pos + w.len() <= end <= s.len() && w.len() > 0 && s.subrange(
        pos,
        pos + w.len() as int,
    ) == w && (pos + w.len() == end || is_space(s[pos + w.len()])) {
        Some(pos + w.len() as int)
    } else {
        None
    }
}

/// Whitespace, then the word `w` with a trailing boundary.
pub open spec fn sp_kw(s: Seq<char>, end: int, pos: int, w: Seq<char>) -> Option<int> {
    sp_word(s, end, sp_skip_ws(s, end, pos), w)
}

/// Whitespace, then a non-empty bare token `[a, b)`.
pub open spec fn sp_token(s: Seq<char>, end: int, pos: int) -> Option<(int, int)> {
    let a = sp_skip_ws(s, end, pos);
    let b = sp_token_run(s, end, a);
    if b > a {
        Some((a, b))
    } else {
        None
    }
}

/// Whitespace, then a non-empty digit run `[a, b)` with a trailing
/// boundary. Yields the run and its numeric value, unbounded.
pub open spec fn sp_number(s: Seq<char>, end: int, pos: int) -> Option<(int, int, int)> {
    let a = sp_skip_ws(s, end, pos);
    let b = sp_digit_run(s, end, a);
    if b > a && (b == end || (0 <= b < s.len() && is_space(s[b]))) {
        Some((a, b, sp_digits_val(s, a, b)))
    } else {
        None
    }
}

/// Whitespace, then a double-quoted string. Yields the content `[a, b)`
/// (quotes excluded) and the position after the closing quote. The
/// language supports no escapes beyond balanced quotes: the content is
/// everything up to the next quote character.
pub open spec fn sp_quoted(s: Seq<char>, end: int, pos: int) -> Option<(int, int, int)> {
    let a = sp_skip_ws(s, end, pos);
    if a < end && 0 <= a < s.len() && s[a] == '"' {
        let b = sp_quote_run(s, end, a + 1);
        if b < end && 0 <= b < s.len() && s[b] == '"' {
            Some((a + 1, b, b + 1))
        } else {
            None
        }
    } else {
        None
    }
}

/// End of the run of non-quote characters starting at `pos`.
pub open spec fn sp_quote_run(s: Seq<char>, end: int, pos: int) -> int
    decreases end - pos,
{
    if pos < end && 0 <= pos < s.len() && s[pos] != '"' {
        sp_quote_run(s, end, pos + 1)
    } else {
        pos
    }
}

/// End of the run of characters other than a closing bracket.
pub open spec fn sp_bracket_run(s: Seq<char>, end: int, pos: int) -> int
    decreases end - pos,
{
    if pos < end && 0 <= pos < s.len() && s[pos] != ']' {
        sp_bracket_run(s, end, pos + 1)
    } else {
        pos
    }
}

pub proof fn lemma_digit_run_bounds(s: Seq<char>, end: int, pos: int)
    requires
        0 <= pos <= end <= s.len(),
    ensures
        pos <= sp_digit_run(s, end, pos) <= end,
    decreases end - pos,
{
    if pos < end && is_digit(s[pos]) {
        lemma_digit_run_bounds(s, end, pos + 1);
    }
}

pub proof fn lemma_quote_run_bounds(s: Seq<char>, end: int, pos: int)
    requires
        0 <= pos <= end <= s.len(),
    ensures
        pos <= sp_quote_run(s, end, pos) <= end,
    decreases end - pos,
{
    if pos < end && s[pos] != '"' {
        lemma_quote_run_bounds(s, end, pos + 1);
    }
}

/// Only whitespace remains in `[pos, end)`.
pub open spec fn sp_line_done(s: Seq<char>, end: int, pos: int) -> bool {
    sp_skip_ws(s, end, pos) == end
}

// ---------------------------------------------------------------------
// Exec mirrors.
// ---------------------------------------------------------------------

pub fn is_space_c(c: char) -> (r: bool)
    ensures
        r == is_space(c),
{
    c == ' ' || c == '\t' || c == '\r'
}

pub fn is_digit_c(c: char) -> (r: bool)
    ensures
        r == is_digit(c),
{
    c == '0' || c == '1' || c == '2' || c == '3' || c == '4' || c == '5' || c == '6' || c == '7'
        || c == '8' || c == '9'
}

pub fn digit_val_c(c: char) -> (r: u64)
    requires
        is_digit(c),
    ensures
        r == digit_val(c),
{
    if c == '0' {
        0
    } else if c == '1' {
        1
    } else if c == '2' {
        2
    } else if c == '3' {
        3
    } else if c == '4' {
        4
    } else if c == '5' {
        5
    } else if c == '6' {
        6
    } else if c == '7' {
        7
    } else if c == '8' {
        8
    } else {
        9
    }
}

pub fn skip_ws(chars: &Vec<char>, end: usize, pos: usize) -> (r: usize)
    requires
        pos <= end <= chars@.len(),
    ensures
        r == sp_skip_ws(chars@, end as int, pos as int),
        pos <= r <= end,
    decreases end - pos,
{
    if pos < end && is_space_c(chars[pos]) {
        skip_ws(chars, end, pos + 1)
    } else {
        pos
    }
}

pub fn line_end_from(chars: &Vec<char>, pos: usize) -> (r: usize)
    requires
        pos <= chars@.len(),
    ensures
        r == sp_line_end(chars@, pos as int),
        pos <= r <= chars@.len(),
    decreases chars@.len() - pos,
{
    if pos < chars.len() {
        if chars[pos] == '\n' {
            pos
        } else {
            line_end_from(chars, pos + 1)
        }
    } else {
        chars.len()
    }
}

pub fn rtrim(chars: &Vec<char>, start: usize, end: usize) -> (r: usize)
    requires
        start <= end <= chars@.len(),
    ensures
        r == sp_rtrim(chars@, start as int, end as int),
        start <= r <= end,
    decreases end - start,
{
    if start < end && is_space_c(chars[end - 1]) {
        rtrim(chars, start, end - 1)
    } else {
        end
    }
}

pub fn name_run(chars: &Vec<char>, end: usize, pos: usize) -> (r: usize)
    requires
        pos <= end <= chars@.len(),
    ensures
        r == sp_name_run(chars@, end as int, pos as int),
        pos <= r <= end,
    decreases end - pos,
{
    if pos < end && !is_space_c(chars[pos]) && chars[pos] != ':' && chars[pos] != '\n' {
        name_run(chars, end, pos + 1)
    } else {
        pos
    }
}

pub fn token_run(chars: &Vec<char>, end: usize, pos: usize) -> (r: usize)
    requires
        pos <= end <= chars@.len(),
    ensures
        r == sp_token_run(chars@, end as int, pos as int),
        pos <= r <= end,
    decreases end - pos,
{
    if pos < end && !is_space_c(chars[pos]) && chars[pos] != '\n' {
        token_run(chars, end, pos + 1)
    } else {
        pos
    }
}

pub fn digit_run(chars: &Vec<char>, end: usize, pos: usize) -> (r: usize)
    requires
        pos <= end <= chars@.len(),
    ensures
        r == sp_digit_run(chars@, end as int, pos as int),
        pos <= r <= end,
    decreases end - pos,
{
    if pos < end && is_digit_c(chars[pos]) {
        digit_run(chars, end, pos + 1)
    } else {
        pos
    }
}

pub fn quote_run(chars: &Vec<char>, end: usize, pos: usize) -> (r: usize)
    requires
        pos <= end <= chars@.len(),
    ensures
        r == sp_quote_run(chars@, end as int, pos as int),
        pos <= r <= end,
    decreases end - pos,
{
    if pos < end && chars[pos] != '"' {
        quote_run(chars, end, pos + 1)
    } else {
        pos
    }
}

pub fn bracket_run(chars: &Vec<char>, end: usize, pos: usize) -> (r: usize)
    requires
        pos <= end <= chars@.len(),
    ensures
        r == sp_bracket_run(chars@, end as int, pos as int),
        pos <= r <= end,
    decreases end - pos,
{
    if pos < end && chars[pos] != ']' {
        bracket_run(chars, end, pos + 1)
    } else {
        pos
    }
}

/// Does only whitespace remain in `[pos, end)`?
pub fn line_done(chars: &Vec<char>, end: usize, pos: usize) -> (r: bool)
    requires
        pos <= end <= chars@.len(),
    ensures
        r == sp_line_done(chars@, end as int, pos as int),
{
    let p = skip_ws(chars, end, pos);
    p == end
}

/// Match the word `w` (a non-empty keyword literal) at `pos` with a
/// trailing whitespace-or-end boundary.
pub fn word(chars: &Vec<char>, end: usize, pos: usize, w: &str) -> (r: Option<usize>)
    requires
        pos <= end <= chars@.len(),
    ensures
        match r {
            Some(p) => sp_word(chars@, end as int, pos as int, w@) == Some(p as int) && pos < p
                <= end,
            None => sp_word(chars@, end as int, pos as int, w@) is None,
        },
{
    let wl = w.unicode_len();
    if wl == 0 || wl > end - pos {
        return None;
    }
    let mut i: usize = 0;
    while i < wl
        invariant
            0 <= i <= wl,
            wl == w@.len(),
            pos + wl <= end <= chars@.len(),
            forall|k: int| 0 <= k < i ==> chars@[pos + k] == w@[k],
        decreases wl - i,
    {
        if chars[pos + i] != w.get_char(i) {
            proof {
                assert(chars@.subrange(pos as int, pos + wl as int)[i as int] != w@[i as int]);
            }
            return None;
        }
        i = i + 1;
    }
    proof {
        assert(chars@.subrange(pos as int, pos + wl as int) =~= w@);
    }
    if pos + wl == end || is_space_c(chars[pos + wl]) {
        Some(pos + wl)
    } else {
        None
    }
}

/// Whitespace, then the word `w` with a trailing boundary.
pub fn kw(chars: &Vec<char>, end: usize, pos: usize, w: &str) -> (r: Option<usize>)
    requires
        pos <= end <= chars@.len(),
    ensures
        match r {
            Some(p) => sp_kw(chars@, end as int, pos as int, w@) == Some(p as int) && pos < p
                <= end,
            None => sp_kw(chars@, end as int, pos as int, w@) is None,
        },
{
    let a = skip_ws(chars, end, pos);
    word(chars, end, a, w)
}

/// Whitespace, then a non-empty bare token.
pub fn token(chars: &Vec<char>, end: usize, pos: usize) -> (r: Option<(usize, usize)>)
    requires
        pos <= end <= chars@.len(),
    ensures
        match r {
            Some((a, b)) => sp_token(chars@, end as int, pos as int) == Some((a as int, b as int))
                && pos <= a < b <= end,
            None => sp_token(chars@, end as int, pos as int) is None,
        },
{
    let a = skip_ws(chars, end, pos);
    let b = token_run(chars, end, a);
    if b > a {
        Some((a, b))
    } else {
        None
    }
}

/// Result of reading a numeral: the value fits in a `u64`, or the digit
/// run `[a, b)` denotes a value beyond `u64`, or there is no numeral.
pub enum NumRead {
    Num(u64, usize, usize, usize),
    Big(usize, usize),
    NoNum,
}

proof fn lemma_digits_val_nonneg(s: Seq<char>, a: int, b: int)
    requires
        a <= b,
    ensures
        sp_digits_val(s, a, b) >= 0,
    decreases b - a,
{
    if a < b {
        lemma_digits_val_nonneg(s, a, b - 1);
    }
}

proof fn lemma_digits_val_grows(s: Seq<char>, a: int, b: int, c: int)
    requires
        a <= b <= c,
    ensures
        sp_digits_val(s, a, b) <= sp_digits_val(s, a, c),
    decreases c - b,
{
    if b < c {
        lemma_digits_val_grows(s, a, b, c - 1);
        lemma_digits_val_nonneg(s, a, c - 1);
    }
}

/// Whitespace, then a numeral with a trailing boundary. `Num` carries the
/// value and the digit run; `Big` reports a numeral whose value does not
/// fit in 64 bits.
pub fn number(chars: &Vec<char>, end: usize, pos: usize) -> (r: NumRead)
    requires
        pos <= end <= chars@.len(),
    ensures
        match r {
            NumRead::Num(v, a, b, p) => sp_number(chars@, end as int, pos as int) == Some(
                (a as int, b as int, v as int),
            ) && b == p && pos <= a < b <= end,
            NumRead::Big(a, b) => {
                &&& sp_number(chars@, end as int, pos as int) matches Some((sa, sb, sv))
                    && sa == a && sb == b && sv > u64::MAX
                &&& pos <= a < b <= end
            },
            NumRead::NoNum => sp_number(chars@, end as int, pos as int) is None,
        },
{
    let a = skip_ws(chars, end, pos);
    let b = digit_run(chars, end, a);
    if b == a {
        return NumRead::NoNum;
    }
    if !(b == end || is_space_c(chars[b])) {
        return NumRead::NoNum;
    }
    proof {
        assert(forall|k: int| a <= k < b ==> is_digit(chars@[k])) by {
            assert forall|k: int| a <= k < b implies is_digit(chars@[k]) by {
                lemma_digit_run_chars(chars@, end as int, a as int, k);
            }
        }
    }
    let mut i: usize = a;
    let mut v: u64 = 0;
    while i < b
        invariant
            pos <= a <= i <= b <= end <= chars@.len(),
            v == sp_digits_val(chars@, a as int, i as int),
            forall|k: int| a <= k < b ==> is_digit(chars@[k]),
            a == sp_skip_ws(chars@, end as int, pos as int),
            b == sp_digit_run(chars@, end as int, a as int),
            b == end || (b < chars@.len() && is_space(chars@[b as int])),
        decreases b - i,
    {
        let d = digit_val_c(chars[i]);
        if v > (u64::MAX - d) / 10 {
            proof {
                assert(sp_digits_val(chars@, a as int, i + 1) == v * 10 + d);
                assert(v * 10 + d > u64::MAX) by (nonlinear_arith)
                    requires
                        v > (u64::MAX - d) / 10,
                        0 <= d <= 9,
                ;
                lemma_digits_val_grows(chars@, a as int, i + 1, b as int);
            }
            return NumRead::Big(a, b);
        }
        proof {
            assert(v * 10 + d <= u64::MAX) by (nonlinear_arith)
                requires
                    v <= (u64::MAX - d) / 10,
                    0 <= d <= 9,
            ;
        }
        v = v * 10 + d;
        i = i + 1;
    }
    NumRead::Num(v, a, b, b)
}

proof fn lemma_digit_run_chars(s: Seq<char>, end: int, pos: int, k: int)
    requires
        0 <= pos <= end <= s.len(),
        pos <= k < sp_digit_run(s, end, pos),
    ensures
        is_digit(s[k]),
    decreases end - pos,
{
    if pos < end && is_digit(s[pos]) {
        if k > pos {
            lemma_digit_run_chars(s, end, pos + 1, k);
        }
    }
}

/// Whitespace, then a double-quoted string; yields the content bounds and
/// the position after the closing quote.
pub fn quoted(chars: &Vec<char>, end: usize, pos: usize) -> (r: Option<(usize, usize, usize)>)
    requires
        pos <= end <= chars@.len(),
    ensures
        match r {
            Some((a, b, p)) => sp_quoted(chars@, end as int, pos as int) == Some(
                (a as int, b as int, p as int),
            ) && pos < a <= b < p <= end,
            None => sp_quoted(chars@, end as int, pos as int) is None,
        },
{
    let a = skip_ws(chars, end, pos);
    if a < end && chars[a] == '"' {
        let b = quote_run(chars, end, a + 1);
        if b < end && chars[b] == '"' {
            Some((a + 1, b, b + 1))
        } else {
            None
        }
    } else {
        None
    }
}

} // verus!
