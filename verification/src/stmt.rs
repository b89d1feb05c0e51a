//! Shared statement-level extractors: operator phrases, comparisons,
//! duration clauses, match patterns, bucket lists and trace patterns.
//!
//! As in [`crate::scan`], each extractor is a spec function (the
//! grammar) and an exec mirror proved equal to it.

use vstd::prelude::*;
use vstd::string::*;

use crate::ast::AssertionKind;
use crate::ast::AssertionKindV;
use crate::ast::Comparison;
use crate::ast::Operator;
use crate::scan::bracket_run;
use crate::scan::kw;
use crate::scan::lemma_digit_run_bounds;
use crate::scan::lemma_quote_run_bounds;
use crate::scan::lemma_skip_ws_bounds;
use crate::scan::line_done;
use crate::scan::number;
use crate::scan::quote_run;
use crate::scan::quoted;
use crate::scan::skip_ws;
use crate::scan::sp_bracket_run;
use crate::scan::sp_kw;
use crate::scan::sp_line_done;
use crate::scan::sp_number;
use crate::scan::sp_quote_run;
use crate::scan::sp_quoted;
use crate::scan::sp_skip_ws;
use crate::scan::sp_token;
use crate::scan::token;
use crate::scan::NumRead;

verus! {

/// Copy the characters `[a, b)` of the source into an owned string.
pub fn extract(text: &str, a: usize, b: usize) -> (r: String)
    requires
        a <= b <= text@.len(),
    ensures
        r@ == text@.subrange(a as int, b as int),
{
    String::from_str(text.substring_char(a, b))
}

/// The operator phrase modifiers that may follow the optional leading
/// "is": "not", "above", "below", "at least", "at most".
pub open spec fn sp_op_mod(s: Seq<char>, end: int, pos: int) -> Option<(Operator, int)> {
    match sp_kw(s, end, pos, "not"@) {
        Some(p) => Some((Operator::NotEqual, p)),
        None => match sp_kw(s, end, pos, "above"@) {
            Some(p) => Some((Operator::IsAbove, p)),
            None => match sp_kw(s, end, pos, "below"@) {
                Some(p) => Some((Operator::IsBelow, p)),
                None => match sp_kw(s, end, pos, "at"@) {
                    Some(p) => match sp_kw(s, end, p, "least"@) {
                        Some(q) => Some((Operator::IsAtLeast, q)),
                        None => match sp_kw(s, end, p, "most"@) {
                            Some(q) => Some((Operator::IsAtMost, q)),
                            None => None,
                        },
                    },
                    None => None,
                },
            },
        },
    }
}

/// An operator phrase. The six phrases "is", "is not", "is above",
/// "is at least", "is below", "is at most" map to the six operators;
/// the modifier alone (without "is") is accepted as well, as in
/// "has at least 1 samples".
pub open spec fn sp_op(s: Seq<char>, end: int, pos: int) -> Option<(Operator, int)> {
    match sp_kw(s, end, pos, "is"@) {
        Some(p1) => match sp_op_mod(s, end, p1) {
            Some(r) => Some(r),
            None => Some((Operator::Equal, p1)),
        },
        None => sp_op_mod(s, end, pos),
    }
}

/// Result of reading a comparison: the operator and value, a numeral
/// that does not fit (its text), or no comparison at this position.
pub enum SpCmp {
    Hit(Operator, int, int),
    Big(Seq<char>),
    Miss,
}

/// An operator phrase followed by a numeral.
pub open spec fn sp_cmp(s: Seq<char>, end: int, pos: int) -> SpCmp {
    match sp_op(s, end, pos) {
        None => SpCmp::Miss,
        Some((op, p)) => match sp_number(s, end, p) {
            None => SpCmp::Miss,
            Some((a, b, v)) => if v > u64::MAX {
                SpCmp::Big(s.subrange(a, b))
            } else {
                SpCmp::Hit(op, v, b)
            },
        },
    }
}

/// A comparison, or a bare numeral which defaults the operator to
/// `Equal` (the histogram and log-count forms).
pub open spec fn sp_cmp_or_int(s: Seq<char>, end: int, pos: int) -> SpCmp {
    match sp_cmp(s, end, pos) {
        SpCmp::Miss => match sp_number(s, end, pos) {
            None => SpCmp::Miss,
            Some((a, b, v)) => if v > u64::MAX {
                SpCmp::Big(s.subrange(a, b))
            } else {
                SpCmp::Hit(Operator::Equal, v, b)
            },
        },
        r => r,
    }
}

/// A time unit word: "seconds", "secs" or "second".
pub open spec fn sp_unit(s: Seq<char>, end: int, pos: int) -> Option<int> {
    match sp_kw(s, end, pos, "seconds"@) {
        Some(p) => Some(p),
        None => match sp_kw(s, end, pos, "secs"@) {
            Some(p) => Some(p),
            None => sp_kw(s, end, pos, "second"@),
        },
    }
}

/// Result of reading an optional trailing duration clause.
pub enum SpTail {
    Done(Option<u64>),
    Big(Seq<char>),
    Miss,
}

/// The optional end of a statement: either nothing but whitespace, or
/// `<w> <N> <unit>` (with `w` = "within" for timeouts, "after" for the
/// restart delay) followed by nothing but whitespace.
pub open spec fn sp_delay(s: Seq<char>, end: int, pos: int, w: Seq<char>) -> SpTail {
    if sp_line_done(s, end, pos) {
        SpTail::Done(None)
    } else {
        match sp_kw(s, end, pos, w) {
            None => SpTail::Miss,
            Some(p1) => match sp_number(s, end, p1) {
                None => SpTail::Miss,
                Some((a, b, v)) => if v > u64::MAX {
                    SpTail::Big(s.subrange(a, b))
                } else {
                    match sp_unit(s, end, b) {
                        None => SpTail::Miss,
                        Some(p2) => if sp_line_done(s, end, p2) {
                            SpTail::Done(Some(v as u64))
                        } else {
                            SpTail::Miss
                        },
                    }
                },
            },
        }
    }
}

/// The trailing timeout clause `within <N> seconds`.
pub open spec fn sp_tail(s: Seq<char>, end: int, pos: int) -> SpTail {
    sp_delay(s, end, pos, "within"@)
}

/// An optional explicit match type ("glob" or "regex", `true` when glob)
/// followed by the quoted pattern `[a, b)`.
pub open spec fn sp_match_pat(s: Seq<char>, end: int, pos: int) -> Option<(bool, int, int, int)> {
    match sp_kw(s, end, pos, "glob"@) {
        Some(p1) => match sp_quoted(s, end, p1) {
            Some((a, b, p)) => Some((true, a, b, p)),
            None => None,
        },
        None => match sp_kw(s, end, pos, "regex"@) {
            Some(p1) => match sp_quoted(s, end, p1) {
                Some((a, b, p)) => Some((false, a, b, p)),
                None => None,
            },
            None => match sp_quoted(s, end, pos) {
                Some((a, b, p)) => Some((false, a, b, p)),
                None => None,
            },
        },
    }
}

/// A trace pattern, kept verbatim: a quoted string (quotes included) or
/// a bracketed list, spanning `[a, b)`.
pub open spec fn sp_trace_pat(s: Seq<char>, end: int, pos: int) -> Option<(int, int, int)> {
    let p = sp_skip_ws(s, end, pos);
    if p < end && 0 <= p < s.len() && s[p] == '"' {
        let c = sp_quote_run(s, end, p + 1);
        if c < end && 0 <= c < s.len() && s[c] == '"' {
            Some((p, c + 1, c + 1))
        } else {
            None
        }
    } else if p < end && 0 <= p < s.len() && s[p] == '[' {
        let c = sp_bracket_run(s, end, p + 1);
        if c < end && 0 <= c < s.len() && s[c] == ']' {
            Some((p, c + 1, c + 1))
        } else {
            None
        }
    } else {
        None
    }
}

// ---------------------------------------------------------------------
// Bounds lemmas for the extractors, used by recursive definitions and
// by the laws.
// ---------------------------------------------------------------------

pub proof fn lemma_kw_bounds(s: Seq<char>, end: int, pos: int, w: Seq<char>)
    requires
        0 <= pos <= end <= s.len(),
    ensures
        sp_kw(s, end, pos, w) matches Some(p) ==> pos < p <= end,
{
    lemma_skip_ws_bounds(s, end, pos);
}

pub proof fn lemma_op_bounds(s: Seq<char>, end: int, pos: int)
    requires
        0 <= pos <= end <= s.len(),
    ensures
        sp_op(s, end, pos) matches Some((op, p)) ==> pos < p <= end,
        sp_op_mod(s, end, pos) matches Some((op, p)) ==> pos < p <= end,
{
    lemma_kw_bounds(s, end, pos, "is"@);
    lemma_kw_bounds(s, end, pos, "not"@);
    lemma_kw_bounds(s, end, pos, "above"@);
    lemma_kw_bounds(s, end, pos, "below"@);
    lemma_kw_bounds(s, end, pos, "at"@);
    if let Some(p1) = sp_kw(s, end, pos, "is"@) {
        lemma_kw_bounds(s, end, p1, "not"@);
        lemma_kw_bounds(s, end, p1, "above"@);
        lemma_kw_bounds(s, end, p1, "below"@);
        lemma_kw_bounds(s, end, p1, "at"@);
        if let Some(p2) = sp_kw(s, end, p1, "at"@) {
            lemma_kw_bounds(s, end, p2, "least"@);
            lemma_kw_bounds(s, end, p2, "most"@);
        }
    }
    if let Some(p2) = sp_kw(s, end, pos, "at"@) {
        lemma_kw_bounds(s, end, p2, "least"@);
        lemma_kw_bounds(s, end, p2, "most"@);
    }
}

pub proof fn lemma_number_bounds(s: Seq<char>, end: int, pos: int)
    requires
        0 <= pos <= end <= s.len(),
    ensures
        sp_number(s, end, pos) matches Some((a, b, v)) ==> pos <= a < b <= end,
{
    lemma_skip_ws_bounds(s, end, pos);
    let a = sp_skip_ws(s, end, pos);
    lemma_digit_run_bounds(s, end, a);
}

pub proof fn lemma_quoted_bounds(s: Seq<char>, end: int, pos: int)
    requires
        0 <= pos <= end <= s.len(),
    ensures
        sp_quoted(s, end, pos) matches Some((a, b, p)) ==> pos < a <= b < p <= end,
{
    lemma_skip_ws_bounds(s, end, pos);
    let q = sp_skip_ws(s, end, pos);
    if q < end {
        lemma_quote_run_bounds(s, end, q + 1);
    }
}

pub proof fn lemma_cmp_bounds(s: Seq<char>, end: int, pos: int)
    requires
        0 <= pos <= end <= s.len(),
    ensures
        sp_cmp(s, end, pos) matches SpCmp::Hit(op, v, p) ==> pos < p <= end,
        sp_cmp_or_int(s, end, pos) matches SpCmp::Hit(op, v, p) ==> pos <= p <= end,
{
    lemma_op_bounds(s, end, pos);
    lemma_number_bounds(s, end, pos);
    if let Some((op, p1)) = sp_op(s, end, pos) {
        lemma_number_bounds(s, end, p1);
    }
}

// ---------------------------------------------------------------------
// Exec mirrors.
// ---------------------------------------------------------------------

fn op_mod(chars: &Vec<char>, end: usize, pos: usize) -> (r: Option<(Operator, usize)>)
    requires
        pos <= end <= chars@.len(),
    ensures
        match r {
            Some((o, p)) => sp_op_mod(chars@, end as int, pos as int) == Some((o, p as int)) && pos
                < p <= end,
            None => sp_op_mod(chars@, end as int, pos as int) is None,
        },
{
    if let Some(p) = kw(chars, end, pos, "not") {
        Some((Operator::NotEqual, p))
    } else if let Some(p) = kw(chars, end, pos, "above") {
        Some((Operator::IsAbove, p))
    } else if let Some(p) = kw(chars, end, pos, "below") {
        Some((Operator::IsBelow, p))
    } else if let Some(p) = kw(chars, end, pos, "at") {
        if let Some(q) = kw(chars, end, p, "least") {
            Some((Operator::IsAtLeast, q))
        } else if let Some(q) = kw(chars, end, p, "most") {
            Some((Operator::IsAtMost, q))
        } else {
            None
        }
    } else {
        None
    }
}

pub fn op_phrase(chars: &Vec<char>, end: usize, pos: usize) -> (r: Option<(Operator, usize)>)
    requires
        pos <= end <= chars@.len(),
    ensures
        match r {
            Some((o, p)) => sp_op(chars@, end as int, pos as int) == Some((o, p as int)) && pos < p
                <= end,
            None => sp_op(chars@, end as int, pos as int) is None,
        },
{
    if let Some(p1) = kw(chars, end, pos, "is") {
        if let Some(r) = op_mod(chars, end, p1) {
            Some(r)
        } else {
            Some((Operator::Equal, p1))
        }
    } else {
        op_mod(chars, end, pos)
    }
}

/// Exec counterpart of [`SpCmp`].
pub enum CmpRead {
    Hit(Operator, u64, usize),
    Big(String),
    Miss,
}

pub open spec fn cmp_read_view(r: CmpRead) -> SpCmp {
    match r {
        CmpRead::Hit(o, v, p) => SpCmp::Hit(o, v as int, p as int),
        CmpRead::Big(t) => SpCmp::Big(t@),
        CmpRead::Miss => SpCmp::Miss,
    }
}

pub fn cmp(text: &str, chars: &Vec<char>, end: usize, pos: usize) -> (r: CmpRead)
    requires
        chars@ == text@,
        pos <= end <= chars@.len(),
    ensures
        cmp_read_view(r) == sp_cmp(chars@, end as int, pos as int),
        r matches CmpRead::Hit(o, v, p) ==> pos < p <= end,
{
    match op_phrase(chars, end, pos) {
        None => CmpRead::Miss,
        Some((op, p)) => match number(chars, end, p) {
            NumRead::NoNum => CmpRead::Miss,
            NumRead::Big(a, b) => CmpRead::Big(extract(text, a, b)),
            NumRead::Num(v, a, b, q) => CmpRead::Hit(op, v, q),
        },
    }
}

pub fn cmp_or_int(text: &str, chars: &Vec<char>, end: usize, pos: usize) -> (r: CmpRead)
    requires
        chars@ == text@,
        pos <= end <= chars@.len(),
    ensures
        cmp_read_view(r) == sp_cmp_or_int(chars@, end as int, pos as int),
        r matches CmpRead::Hit(o, v, p) ==> pos <= p <= end,
{
    match cmp(text, chars, end, pos) {
        CmpRead::Miss => match number(chars, end, pos) {
            NumRead::NoNum => CmpRead::Miss,
            NumRead::Big(a, b) => CmpRead::Big(extract(text, a, b)),
            NumRead::Num(v, a, b, q) => CmpRead::Hit(Operator::Equal, v, q),
        },
        r => r,
    }
}

pub fn unit_word(chars: &Vec<char>, end: usize, pos: usize) -> (r: Option<usize>)
    requires
        pos <= end <= chars@.len(),
    ensures
        match r {
            Some(p) => sp_unit(chars@, end as int, pos as int) == Some(p as int) && pos < p <= end,
            None => sp_unit(chars@, end as int, pos as int) is None,
        },
{
    if let Some(p) = kw(chars, end, pos, "seconds") {
        Some(p)
    } else if let Some(p) = kw(chars, end, pos, "secs") {
        Some(p)
    } else {
        kw(chars, end, pos, "second")
    }
}

/// Exec counterpart of [`SpTail`].
pub enum TailRead {
    Done(Option<u64>),
    Big(String),
    Miss,
}

pub open spec fn tail_read_view(r: TailRead) -> SpTail {
    match r {
        TailRead::Done(t) => SpTail::Done(t),
        TailRead::Big(t) => SpTail::Big(t@),
        TailRead::Miss => SpTail::Miss,
    }
}

pub fn delay(text: &str, chars: &Vec<char>, end: usize, pos: usize, w: &str) -> (r: TailRead)
    requires
        chars@ == text@,
        pos <= end <= chars@.len(),
    ensures
        tail_read_view(r) == sp_delay(chars@, end as int, pos as int, w@),
{
    if line_done(chars, end, pos) {
        return TailRead::Done(None);
    }
    match kw(chars, end, pos, w) {
        None => TailRead::Miss,
        Some(p1) => match number(chars, end, p1) {
            NumRead::NoNum => TailRead::Miss,
            NumRead::Big(a, b) => TailRead::Big(extract(text, a, b)),
            NumRead::Num(v, a, b, q) => match unit_word(chars, end, b) {
                None => TailRead::Miss,
                Some(p2) => if line_done(chars, end, p2) {
                    TailRead::Done(Some(v))
                } else {
                    TailRead::Miss
                },
            },
        },
    }
}

pub fn tail(text: &str, chars: &Vec<char>, end: usize, pos: usize) -> (r: TailRead)
    requires
        chars@ == text@,
        pos <= end <= chars@.len(),
    ensures
        tail_read_view(r) == sp_tail(chars@, end as int, pos as int),
{
    delay(text, chars, end, pos, "within")
}

pub fn match_pat(chars: &Vec<char>, end: usize, pos: usize) -> (r: Option<
    (bool, usize, usize, usize),
>)
    requires
        pos <= end <= chars@.len(),
    ensures
        match r {
            Some((g, a, b, p)) => sp_match_pat(chars@, end as int, pos as int) == Some(
                (g, a as int, b as int, p as int),
            ) && pos < a <= b < p <= end,
            None => sp_match_pat(chars@, end as int, pos as int) is None,
        },
{
    if let Some(p1) = kw(chars, end, pos, "glob") {
        match quoted(chars, end, p1) {
            Some((a, b, p)) => Some((true, a, b, p)),
            None => None,
        }
    } else if let Some(p1) = kw(chars, end, pos, "regex") {
        match quoted(chars, end, p1) {
            Some((a, b, p)) => Some((false, a, b, p)),
            None => None,
        }
    } else {
        match quoted(chars, end, pos) {
            Some((a, b, p)) => Some((false, a, b, p)),
            None => None,
        }
    }
}

pub fn trace_pat(chars: &Vec<char>, end: usize, pos: usize) -> (r: Option<(usize, usize, usize)>)
    requires
        pos <= end <= chars@.len(),
    ensures
        match r {
            Some((a, b, p)) => sp_trace_pat(chars@, end as int, pos as int) == Some(
                (a as int, b as int, p as int),
            ) && pos <= a < b <= end && b == p,
            None => sp_trace_pat(chars@, end as int, pos as int) is None,
        },
{
    let p = skip_ws(chars, end, pos);
    if p < end && chars[p] == '"' {
        let c = quote_run(chars, end, p + 1);
        if c < end && chars[c] == '"' {
            Some((p, c + 1, c + 1))
        } else {
            None
        }
    } else if p < end && chars[p] == '[' {
        let c = bracket_run(chars, end, p + 1);
        if c < end && chars[c] == ']' {
            Some((p, c + 1, c + 1))
        } else {
            None
        }
    } else {
        None
    }
}

/// The histogram bucket list: a bracketed, comma-separated list of
/// double-quoted strings. Elements are stored de-quoted, in order.
pub open spec fn sp_buckets(s: Seq<char>, end: int, pos: int) -> Option<(Seq<Seq<char>>, int)> {
    let p = sp_skip_ws(s, end, pos);
    if 0 <= pos <= end <= s.len() && p < end && s[p] == '[' {
        let q = sp_skip_ws(s, end, p + 1);
        if q < end && s[q] == ']' {
            Some((Seq::empty(), q + 1))
        } else {
            sp_bucket_items(s, end, p + 1, Seq::empty())
        }
    } else {
        None
    }
}

/// One or more quoted bucket elements separated by commas, then the
/// closing bracket.
pub open spec fn sp_bucket_items(s: Seq<char>, end: int, pos: int, acc: Seq<Seq<char>>) -> Option<
    (Seq<Seq<char>>, int),
>
    decreases end - pos,
{
    if !(0 <= pos <= end <= s.len()) {
        None
    } else {
        match sp_quoted(s, end, pos) {
            None => None,
            Some((a, b, p)) => {
                let acc2 = acc.push(s.subrange(a, b));
                let q = sp_skip_ws(s, end, p);
                if q < end && s[q] == ',' {
                    proof {
                        lemma_quoted_bounds(s, end, pos);
                        lemma_skip_ws_bounds(s, end, p);
                    }
                    sp_bucket_items(s, end, q + 1, acc2)
                } else if q < end && s[q] == ']' {
                    Some((acc2, q + 1))
                } else {
                    None
                }
            },
        }
    }
}

pub fn buckets(text: &str, chars: &Vec<char>, end: usize, pos: usize) -> (r: Option<
    (Vec<String>, usize),
>)
    requires
        chars@ == text@,
        pos <= end <= chars@.len(),
    ensures
        match r {
            Some((v, p)) => sp_buckets(chars@, end as int, pos as int) == Some(
                (v.deep_view(), p as int),
            ) && pos <= p <= end,
            None => sp_buckets(chars@, end as int, pos as int) is None,
        },
{
    let p = skip_ws(chars, end, pos);
    if !(p < end && chars[p] == '[') {
        return None;
    }
    let q = skip_ws(chars, end, p + 1);
    if q < end && chars[q] == ']' {
        let v: Vec<String> = Vec::new();
        proof {
            assert(v.deep_view() =~= Seq::<Seq<char>>::empty());
        }
        return Some((v, q + 1));
    }
    let mut acc: Vec<String> = Vec::new();
    let mut cur: usize = p + 1;
    proof {
        assert(acc.deep_view() =~= Seq::<Seq<char>>::empty());
    }
    loop
        invariant
            chars@ == text@,
            pos <= cur <= end <= chars@.len(),
            sp_buckets(chars@, end as int, pos as int) == sp_bucket_items(
                chars@,
                end as int,
                cur as int,
                acc.deep_view(),
            ),
        decreases end - cur,
    {
        match quoted(chars, end, cur) {
            None => {
                return None;
            },
            Some((a, b, pq)) => {
                let ghost prev = acc.deep_view();
                let elem = extract(text, a, b);
                acc.push(elem);
                proof {
                    assert(acc.deep_view() =~= prev.push(chars@.subrange(a as int, b as int)));
                }
                let q2 = skip_ws(chars, end, pq);
                if q2 < end && chars[q2] == ',' {
                    cur = q2 + 1;
                } else if q2 < end && chars[q2] == ']' {
                    return Some((acc, q2 + 1));
                } else {
                    return None;
                }
            },
        }
    }
}

pub proof fn lemma_unit_bounds(s: Seq<char>, end: int, pos: int)
    requires
        0 <= pos <= end <= s.len(),
    ensures
        sp_unit(s, end, pos) matches Some(p) ==> pos < p <= end,
{
    lemma_kw_bounds(s, end, pos, "seconds"@);
    lemma_kw_bounds(s, end, pos, "secs"@);
    lemma_kw_bounds(s, end, pos, "second"@);
}

/// Result of reading the trailing clause set of a custom-script
/// statement.
pub enum SpClauses {
    Done(Option<Seq<char>>, Option<Comparison>, Option<u64>),
    Big(Seq<char>),
    Dup,
    Miss,
}

/// The trailing clauses of a custom-script statement: an arguments
/// string (`with "..."`), a comparison, and a timeout, in any order,
/// each at most once. A clause seen twice is a `Dup`.
pub open spec fn sp_script_clauses(
    s: Seq<char>,
    end: int,
    pos: int,
    args: Option<Seq<char>>,
    cmpo: Option<Comparison>,
    timeout: Option<u64>,
) -> SpClauses
    decreases end - pos,
{
    if !(0 <= pos <= end <= s.len()) {
        SpClauses::Miss
    } else if sp_line_done(s, end, pos) {
        SpClauses::Done(args, cmpo, timeout)
    } else {
        match sp_kw(s, end, pos, "with"@) {
            Some(p1) => match sp_quoted(s, end, p1) {
                Some((a, b, p)) => if args is Some {
                    SpClauses::Dup
                } else {
                    proof {
                        lemma_kw_bounds(s, end, pos, "with"@);
                        lemma_quoted_bounds(s, end, p1);
                    }
                    sp_script_clauses(s, end, p, Some(s.subrange(a, b)), cmpo, timeout)
                },
                None => SpClauses::Miss,
            },
            None => match sp_cmp(s, end, pos) {
                SpCmp::Hit(op, v, p) => if cmpo is Some {
                    SpClauses::Dup
                } else {
                    proof {
                        lemma_cmp_bounds(s, end, pos);
                    }
                    sp_script_clauses(
                        s,
                        end,
                        p,
                        args,
                        Some(Comparison { op, target_value: v as u64 }),
                        timeout,
                    )
                },
                SpCmp::Big(t) => SpClauses::Big(t),
                SpCmp::Miss => match sp_kw(s, end, pos, "within"@) {
                    Some(p1) => match sp_number(s, end, p1) {
                        Some((a, b, v)) => if v > u64::MAX {
                            SpClauses::Big(s.subrange(a, b))
                        } else {
                            match sp_unit(s, end, b) {
                                Some(p2) => if timeout is Some {
                                    SpClauses::Dup
                                } else {
                                    proof {
                                        lemma_kw_bounds(s, end, pos, "within"@);
                                        lemma_number_bounds(s, end, p1);
                                        lemma_unit_bounds(s, end, b);
                                    }
                                    sp_script_clauses(s, end, p2, args, cmpo, Some(v as u64))
                                },
                                None => SpClauses::Miss,
                            }
                        },
                        None => SpClauses::Miss,
                    },
                    None => SpClauses::Miss,
                },
            },
        }
    }
}

/// Exec counterpart of [`SpClauses`].
pub enum ClausesRead {
    Done(Option<String>, Option<Comparison>, Option<u64>),
    Big(String),
    Dup,
    Miss,
}

pub open spec fn clauses_read_view(r: ClausesRead) -> SpClauses {
    match r {
        ClausesRead::Done(a, c, t) => SpClauses::Done(crate::ast::opt_string_view(a), c, t),
        ClausesRead::Big(t) => SpClauses::Big(t@),
        ClausesRead::Dup => SpClauses::Dup,
        ClausesRead::Miss => SpClauses::Miss,
    }
}

pub fn script_clauses(text: &str, chars: &Vec<char>, end: usize, pos: usize) -> (r: ClausesRead)
    requires
        chars@ == text@,
        pos <= end <= chars@.len(),
    ensures
        clauses_read_view(r) == sp_script_clauses(
            chars@,
            end as int,
            pos as int,
            None,
            None,
            None,
        ),
{
    let mut args: Option<String> = None;
    let mut cmpo: Option<Comparison> = None;
    let mut t: Option<u64> = None;
    let mut cur: usize = pos;
    loop
        invariant
            chars@ == text@,
            cur <= end <= chars@.len(),
            sp_script_clauses(chars@, end as int, pos as int, None, None, None)
                == sp_script_clauses(
                chars@,
                end as int,
                cur as int,
                crate::ast::opt_string_view(args),
                cmpo,
                t,
            ),
        decreases end - cur,
    {
        if line_done(chars, end, cur) {
            return ClausesRead::Done(args, cmpo, t);
        }
        if let Some(p1) = kw(chars, end, cur, "with") {
            match quoted(chars, end, p1) {
                Some((a, b, p)) => {
                    if args.is_some() {
                        return ClausesRead::Dup;
                    }
                    args = Some(extract(text, a, b));
                    cur = p;
                },
                None => {
                    return ClausesRead::Miss;
                },
            }
        } else {
            match cmp(text, chars, end, cur) {
                CmpRead::Hit(op, v, p) => {
                    if cmpo.is_some() {
                        return ClausesRead::Dup;
                    }
                    cmpo = Some(Comparison { op, target_value: v });
                    cur = p;
                },
                CmpRead::Big(x) => {
                    return ClausesRead::Big(x);
                },
                CmpRead::Miss => {
                    if let Some(p1) = kw(chars, end, cur, "within") {
                        match number(chars, end, p1) {
                            NumRead::Num(v, a, b, q) => {
                                match unit_word(chars, end, b) {
                                    Some(p2) => {
                                        if t.is_some() {
                                            return ClausesRead::Dup;
                                        }
                                        t = Some(v);
                                        cur = p2;
                                    },
                                    None => {
                                        return ClausesRead::Miss;
                                    },
                                }
                            },
                            NumRead::Big(a, b) => {
                                return ClausesRead::Big(extract(text, a, b));
                            },
                            NumRead::NoNum => {
                                return ClausesRead::Miss;
                            },
                        }
                    } else {
                        return ClausesRead::Miss;
                    }
                },
            }
        }
    }
}

/// Result of matching one statement grammar against a line.
pub enum SpStmt {
    Hit(AssertionKindV),
    Bad(Seq<char>),
    Dup,
    Miss,
}

/// Exec counterpart of [`SpStmt`].
pub enum StmtRead {
    Hit(AssertionKind),
    Bad(String),
    Dup,
    Miss,
}

pub open spec fn stmt_read_view(r: StmtRead) -> SpStmt {
    match r {
        StmtRead::Hit(k) => SpStmt::Hit(k@),
        StmtRead::Bad(t) => SpStmt::Bad(t@),
        StmtRead::Dup => SpStmt::Dup,
        StmtRead::Miss => SpStmt::Miss,
    }
}

/// The three custom-script statement kinds.
#[derive(Clone, Copy)]
pub enum ScriptKind {
    Js,
    Ts,
    Sh,
}

pub open spec fn sp_mk_script(
    kind: ScriptKind,
    name: Seq<char>,
    path: Seq<char>,
    args: Option<Seq<char>>,
    cmpo: Option<Comparison>,
    timeout: Option<u64>,
) -> AssertionKindV {
    match kind {
        ScriptKind::Js => AssertionKindV::CustomJs {
            node_name: name,
            file_path: path,
            custom_args: args,
            cmp: cmpo,
            timeout,
        },
        ScriptKind::Ts => AssertionKindV::CustomTs {
            node_name: name,
            file_path: path,
            custom_args: args,
            cmp: cmpo,
            timeout,
        },
        ScriptKind::Sh => AssertionKindV::CustomSh {
            node_name: name,
            file_path: path,
            custom_args: args,
            cmp: cmpo,
            timeout,
        },
    }
}

/// `<name>: is up [within N seconds]`
pub open spec fn sp_is_up(s: Seq<char>, end: int, pos: int, name: Seq<char>) -> SpStmt {
    match sp_kw(s, end, pos, "up"@) {
        None => SpStmt::Miss,
        Some(p) => match sp_tail(s, end, p) {
            SpTail::Done(t) => SpStmt::Hit(AssertionKindV::IsUp { node_name: name, timeout: t }),
            SpTail::Big(x) => SpStmt::Bad(x),
            SpTail::Miss => SpStmt::Miss,
        },
    }
}

/// The four parachain statements, after `<name>: parachain`:
/// `<id> is registered`, `<id> block height <cmp>`,
/// `<id> perform dummy upgrade`, `<id> perform upgrade with <file>`,
/// each with an optional timeout.
pub open spec fn sp_para(s: Seq<char>, end: int, pos: int, name: Seq<char>) -> SpStmt {
    match sp_number(s, end, pos) {
        None => SpStmt::Miss,
        Some((a, b, v)) => if v > 0xFFFF {
            SpStmt::Bad(s.subrange(a, b))
        } else {
            let pid = v as u16;
            match sp_kw(s, end, b, "is"@) {
                Some(p2) => match sp_kw(s, end, p2, "registered"@) {
                    None => SpStmt::Miss,
                    Some(p3) => match sp_tail(s, end, p3) {
                        SpTail::Done(t) => SpStmt::Hit(
                            AssertionKindV::ParaIsRegistered {
                                node_name: name,
                                para_id: pid,
                                timeout: t,
                            },
                        ),
                        SpTail::Big(x) => SpStmt::Bad(x),
                        SpTail::Miss => SpStmt::Miss,
                    },
                },
                None => match sp_kw(s, end, b, "block"@) {
                    Some(p2) => match sp_kw(s, end, p2, "height"@) {
                        None => SpStmt::Miss,
                        Some(p3) => match sp_cmp(s, end, p3) {
                            SpCmp::Hit(op, tv, p4) => match sp_tail(s, end, p4) {
                                SpTail::Done(t) => SpStmt::Hit(
                                    AssertionKindV::ParaBlockHeight {
                                        node_name: name,
                                        para_id: pid,
                                        op,
                                        target_value: tv as u64,
                                        timeout: t,
                                    },
                                ),
                                SpTail::Big(x) => SpStmt::Bad(x),
                                SpTail::Miss => SpStmt::Miss,
                            },
                            SpCmp::Big(x) => SpStmt::Bad(x),
                            SpCmp::Miss => SpStmt::Miss,
                        },
                    },
                    None => match sp_kw(s, end, b, "perform"@) {
                        None => SpStmt::Miss,
                        Some(p2) => match sp_kw(s, end, p2, "dummy"@) {
                            Some(p3) => match sp_kw(s, end, p3, "upgrade"@) {
                                None => SpStmt::Miss,
                                Some(p4) => match sp_tail(s, end, p4) {
                                    SpTail::Done(t) => SpStmt::Hit(
                                        AssertionKindV::ParaRuntimeDummyUpgrade {
                                            node_name: name,
                                            para_id: pid,
                                            timeout: t,
                                        },
                                    ),
                                    SpTail::Big(x) => SpStmt::Bad(x),
                                    SpTail::Miss => SpStmt::Miss,
                                },
                            },
                            None => match sp_kw(s, end, p2, "upgrade"@) {
                                None => SpStmt::Miss,
                                Some(p3) => match sp_kw(s, end, p3, "with"@) {
                                    None => SpStmt::Miss,
                                    Some(p4) => match sp_token(s, end, p4) {
                                        None => SpStmt::Miss,
                                        Some((fa, fb)) => match sp_tail(s, end, fb) {
                                            SpTail::Done(t) => SpStmt::Hit(
                                                AssertionKindV::ParaRuntimeUpgrade {
                                                    node_name: name,
                                                    para_id: pid,
                                                    file_or_uri: s.subrange(fa, fb),
                                                    timeout: t,
                                                },
                                            ),
                                            SpTail::Big(x) => SpStmt::Bad(x),
                                            SpTail::Miss => SpStmt::Miss,
                                        },
                                    },
                                },
                            },
                        },
                    },
                },
            }
        },
    }
}

/// After `<name>: reports`: either
/// `histogram <metric> has <cmp-or-int> samples in buckets [...]` or
/// `<metric> <cmp>`, each with an optional timeout.
pub open spec fn sp_reports(s: Seq<char>, end: int, pos: int, name: Seq<char>) -> SpStmt {
    match sp_kw(s, end, pos, "histogram"@) {
        Some(p1) => match sp_token(s, end, p1) {
            None => SpStmt::Miss,
            Some((ma, mb)) => match sp_kw(s, end, mb, "has"@) {
                None => SpStmt::Miss,
                Some(p2) => match sp_cmp_or_int(s, end, p2) {
                    SpCmp::Hit(op, tv, p3) => match sp_kw(s, end, p3, "samples"@) {
                        None => SpStmt::Miss,
                        Some(p4) => match sp_kw(s, end, p4, "in"@) {
                            None => SpStmt::Miss,
                            Some(p5) => match sp_kw(s, end, p5, "buckets"@) {
                                None => SpStmt::Miss,
                                Some(p6) => match sp_buckets(s, end, p6) {
                                    None => SpStmt::Miss,
                                    Some((bs, p7)) => match sp_tail(s, end, p7) {
                                        SpTail::Done(t) => SpStmt::Hit(
                                            AssertionKindV::Histogram {
                                                node_name: name,
                                                metric_name: s.subrange(ma, mb),
                                                op,
                                                target_value: tv as u64,
                                                buckets: bs,
                                                timeout: t,
                                            },
                                        ),
                                        SpTail::Big(x) => SpStmt::Bad(x),
                                        SpTail::Miss => SpStmt::Miss,
                                    },
                                },
                            },
                        },
                    },
                    SpCmp::Big(x) => SpStmt::Bad(x),
                    SpCmp::Miss => SpStmt::Miss,
                },
            },
        },
        None => match sp_token(s, end, pos) {
            None => SpStmt::Miss,
            Some((ma, mb)) => match sp_cmp(s, end, mb) {
                SpCmp::Hit(op, tv, p2) => match sp_tail(s, end, p2) {
                    SpTail::Done(t) => SpStmt::Hit(
                        AssertionKindV::Report {
                            node_name: name,
                            metric_name: s.subrange(ma, mb),
                            op,
                            target_value: tv as u64,
                            timeout: t,
                        },
                    ),
                    SpTail::Big(x) => SpStmt::Bad(x),
                    SpTail::Miss => SpStmt::Miss,
                },
                SpCmp::Big(x) => SpStmt::Bad(x),
                SpCmp::Miss => SpStmt::Miss,
            },
        },
    }
}

pub open spec fn sp_match_type_name(glob: bool) -> Seq<char> {
    if glob {
        "glob"@
    } else {
        "regex"@
    }
}

/// After `<name>: log`: `line contains|matches [glob|regex] "<pattern>"`
/// with an optional timeout.
pub open spec fn sp_log(s: Seq<char>, end: int, pos: int, name: Seq<char>) -> SpStmt {
    match sp_kw(s, end, pos, "line"@) {
        None => SpStmt::Miss,
        Some(p1) => {
            let verb = match sp_kw(s, end, p1, "contains"@) {
                Some(p2) => Some(p2),
                None => sp_kw(s, end, p1, "matches"@),
            };
            match verb {
                None => SpStmt::Miss,
                Some(p2) => match sp_match_pat(s, end, p2) {
                    None => SpStmt::Miss,
                    Some((glob, a, b, p3)) => match sp_tail(s, end, p3) {
                        SpTail::Done(t) => SpStmt::Hit(
                            AssertionKindV::LogMatch {
                                node_name: name,
                                match_type: sp_match_type_name(glob),
                                pattern: s.subrange(a, b),
                                timeout: t,
                            },
                        ),
                        SpTail::Big(x) => SpStmt::Bad(x),
                        SpTail::Miss => SpStmt::Miss,
                    },
                },
            }
        },
    }
}

/// After `<name>: count`:
/// `of log lines containing|matching [glob|regex] "<pattern>" <cmp-or-int>`
/// with an optional timeout.
pub open spec fn sp_count(s: Seq<char>, end: int, pos: int, name: Seq<char>) -> SpStmt {
    match sp_kw(s, end, pos, "of"@) {
        None => SpStmt::Miss,
        Some(p1) => match sp_kw(s, end, p1, "log"@) {
            None => SpStmt::Miss,
            Some(p2) => match sp_kw(s, end, p2, "lines"@) {
                None => SpStmt::Miss,
                Some(p3) => {
                    let verb = match sp_kw(s, end, p3, "containing"@) {
                        Some(p4) => Some(p4),
                        None => sp_kw(s, end, p3, "matching"@),
                    };
                    match verb {
                        None => SpStmt::Miss,
                        Some(p4) => match sp_match_pat(s, end, p4) {
                            None => SpStmt::Miss,
                            Some((glob, a, b, p5)) => match sp_cmp_or_int(s, end, p5) {
                                SpCmp::Hit(op, tv, p6) => match sp_tail(s, end, p6) {
                                    SpTail::Done(t) => SpStmt::Hit(
                                        AssertionKindV::CountLogMatch {
                                            node_name: name,
                                            match_type: sp_match_type_name(glob),
                                            pattern: s.subrange(a, b),
                                            op,
                                            target_value: tv as u64,
                                            timeout: t,
                                        },
                                    ),
                                    SpTail::Big(x) => SpStmt::Bad(x),
                                    SpTail::Miss => SpStmt::Miss,
                                },
                                SpCmp::Big(x) => SpStmt::Bad(x),
                                SpCmp::Miss => SpStmt::Miss,
                            },
                        },
                    }
                },
            },
        },
    }
}

/// After `<name>: trace`:
/// `with traceID <span-id> contains <pattern>` with an optional timeout.
/// The pattern is kept verbatim, delimiters included.
pub open spec fn sp_trace(s: Seq<char>, end: int, pos: int, name: Seq<char>) -> SpStmt {
    match sp_kw(s, end, pos, "with"@) {
        None => SpStmt::Miss,
        Some(p1) => match sp_kw(s, end, p1, "traceID"@) {
            None => SpStmt::Miss,
            Some(p2) => match sp_token(s, end, p2) {
                None => SpStmt::Miss,
                Some((sa, sb)) => match sp_kw(s, end, sb, "contains"@) {
                    None => SpStmt::Miss,
                    Some(p3) => match sp_trace_pat(s, end, p3) {
                        None => SpStmt::Miss,
                        Some((a, b, p4)) => match sp_tail(s, end, p4) {
                            SpTail::Done(t) => SpStmt::Hit(
                                AssertionKindV::Trace {
                                    node_name: name,
                                    span_id: s.subrange(sa, sb),
                                    pattern: s.subrange(a, b),
                                    timeout: t,
                                },
                            ),
                            SpTail::Big(x) => SpStmt::Bad(x),
                            SpTail::Miss => SpStmt::Miss,
                        },
                    },
                },
            },
        },
    }
}

/// After `<name>: system`:
/// `event contains|matches [glob|regex] "<pattern>"` with an optional
/// timeout.
pub open spec fn sp_event(s: Seq<char>, end: int, pos: int, name: Seq<char>) -> SpStmt {
    match sp_kw(s, end, pos, "event"@) {
        None => SpStmt::Miss,
        Some(p1) => {
            let verb = match sp_kw(s, end, p1, "contains"@) {
                Some(p2) => Some(p2),
                None => sp_kw(s, end, p1, "matches"@),
            };
            match verb {
                None => SpStmt::Miss,
                Some(p2) => match sp_match_pat(s, end, p2) {
                    None => SpStmt::Miss,
                    Some((glob, a, b, p3)) => match sp_tail(s, end, p3) {
                        SpTail::Done(t) => SpStmt::Hit(
                            AssertionKindV::SystemEvent {
                                node_name: name,
                                match_type: sp_match_type_name(glob),
                                pattern: s.subrange(a, b),
                                timeout: t,
                            },
                        ),
                        SpTail::Big(x) => SpStmt::Bad(x),
                        SpTail::Miss => SpStmt::Miss,
                    },
                },
            }
        },
    }
}

/// After the script keyword: `<path>` then the optional clause set.
pub open spec fn sp_script(
    s: Seq<char>,
    end: int,
    pos: int,
    name: Seq<char>,
    kind: ScriptKind,
) -> SpStmt {
    match sp_token(s, end, pos) {
        None => SpStmt::Miss,
        Some((fa, fb)) => match sp_script_clauses(s, end, fb, None, None, None) {
            SpClauses::Done(args, cmpo, t) => SpStmt::Hit(
                sp_mk_script(kind, name, s.subrange(fa, fb), args, cmpo, t),
            ),
            SpClauses::Big(x) => SpStmt::Bad(x),
            SpClauses::Dup => SpStmt::Dup,
            SpClauses::Miss => SpStmt::Miss,
        },
    }
}

/// After `<name>: restart`: an optional `after <N> seconds` delay.
pub open spec fn sp_restart(s: Seq<char>, end: int, pos: int, name: Seq<char>) -> SpStmt {
    match sp_delay(s, end, pos, "after"@) {
        SpTail::Done(d) => SpStmt::Hit(AssertionKindV::Restart { node_name: name, after: d }),
        SpTail::Big(x) => SpStmt::Bad(x),
        SpTail::Miss => SpStmt::Miss,
    }
}

/// The statement grammar after `<name>:`, dispatched on the leading
/// keyword. A line matching no statement is a `Miss`.
#[verifier::opaque]
pub open spec fn sp_stmt(s: Seq<char>, end: int, pos: int, name: Seq<char>) -> SpStmt {
    match sp_kw(s, end, pos, "is"@) {
        Some(p) => sp_is_up(s, end, p, name),
        None => match sp_kw(s, end, pos, "parachain"@) {
            Some(p) => sp_para(s, end, p, name),
            None => match sp_kw(s, end, pos, "reports"@) {
                Some(p) => sp_reports(s, end, p, name),
                None => match sp_kw(s, end, pos, "log"@) {
                    Some(p) => sp_log(s, end, p, name),
                    None => match sp_kw(s, end, pos, "count"@) {
                        Some(p) => sp_count(s, end, p, name),
                        None => match sp_kw(s, end, pos, "trace"@) {
                            Some(p) => sp_trace(s, end, p, name),
                            None => match sp_kw(s, end, pos, "system"@) {
                                Some(p) => sp_event(s, end, p, name),
                                None => match sp_kw(s, end, pos, "js-script"@) {
                                    Some(p) => sp_script(s, end, p, name, ScriptKind::Js),
                                    None => match sp_kw(s, end, pos, "ts-script"@) {
                                        Some(p) => sp_script(s, end, p, name, ScriptKind::Ts),
                                        None => match sp_kw(s, end, pos, "run"@) {
                                            Some(p) => sp_script(s, end, p, name, ScriptKind::Sh),
                                            None => match sp_kw(s, end, pos, "pause"@) {
                                                Some(p) => if sp_line_done(s, end, p) {
                                                    SpStmt::Hit(
                                                        AssertionKindV::Pause { node_name: name },
                                                    )
                                                } else {
                                                    SpStmt::Miss
                                                },
                                                None => match sp_kw(s, end, pos, "resume"@) {
                                                    Some(p) => if sp_line_done(s, end, p) {
                                                        SpStmt::Hit(
                                                            AssertionKindV::Resume {
                                                                node_name: name,
                                                            },
                                                        )
                                                    } else {
                                                        SpStmt::Miss
                                                    },
                                                    None => match sp_kw(
                                                        s,
                                                        end,
                                                        pos,
                                                        "restart"@,
                                                    ) {
                                                        Some(p) => sp_restart(s, end, p, name),
                                                        None => SpStmt::Miss,
                                                    },
                                                },
                                            },
                                        },
                                    },
                                },
                            },
                        },
                    },
                },
            },
        },
    }
}

fn p_is_up(text: &str, chars: &Vec<char>, end: usize, pos: usize, name: &String) -> (r: StmtRead)
    requires
        chars@ == text@,
        pos <= end <= chars@.len(),
    ensures
        stmt_read_view(r) == sp_is_up(chars@, end as int, pos as int, name@),
{
    match kw(chars, end, pos, "up") {
        None => StmtRead::Miss,
        Some(p) => match tail(text, chars, end, p) {
            TailRead::Done(t) => StmtRead::Hit(
                AssertionKind::IsUp { node_name: name.clone(), timeout: t },
            ),
            TailRead::Big(x) => StmtRead::Bad(x),
            TailRead::Miss => StmtRead::Miss,
        },
    }
}

fn p_para(text: &str, chars: &Vec<char>, end: usize, pos: usize, name: &String) -> (r: StmtRead)
    requires
        chars@ == text@,
        pos <= end <= chars@.len(),
    ensures
        stmt_read_view(r) == sp_para(chars@, end as int, pos as int, name@),
{
    match number(chars, end, pos) {
        NumRead::NoNum => StmtRead::Miss,
        NumRead::Big(a, b) => StmtRead::Bad(extract(text, a, b)),
        NumRead::Num(v, a, b, q) => {
            if v > 0xFFFF {
                return StmtRead::Bad(extract(text, a, b));
            }
            let pid: u16 = v as u16;
            if let Some(p2) = kw(chars, end, b, "is") {
                match kw(chars, end, p2, "registered") {
                    None => StmtRead::Miss,
                    Some(p3) => match tail(text, chars, end, p3) {
                        TailRead::Done(t) => StmtRead::Hit(
                            AssertionKind::ParaIsRegistered {
                                node_name: name.clone(),
                                para_id: pid,
                                timeout: t,
                            },
                        ),
                        TailRead::Big(x) => StmtRead::Bad(x),
                        TailRead::Miss => StmtRead::Miss,
                    },
                }
            } else if let Some(p2) = kw(chars, end, b, "block") {
                match kw(chars, end, p2, "height") {
                    None => StmtRead::Miss,
                    Some(p3) => match cmp(text, chars, end, p3) {
                        CmpRead::Hit(op, tv, p4) => match tail(text, chars, end, p4) {
                            TailRead::Done(t) => StmtRead::Hit(
                                AssertionKind::ParaBlockHeight {
                                    node_name: name.clone(),
                                    para_id: pid,
                                    op,
                                    target_value: tv,
                                    timeout: t,
                                },
                            ),
                            TailRead::Big(x) => StmtRead::Bad(x),
                            TailRead::Miss => StmtRead::Miss,
                        },
                        CmpRead::Big(x) => StmtRead::Bad(x),
                        CmpRead::Miss => StmtRead::Miss,
                    },
                }
            } else if let Some(p2) = kw(chars, end, b, "perform") {
                if let Some(p3) = kw(chars, end, p2, "dummy") {
                    match kw(chars, end, p3, "upgrade") {
                        None => StmtRead::Miss,
                        Some(p4) => match tail(text, chars, end, p4) {
                            TailRead::Done(t) => StmtRead::Hit(
                                AssertionKind::ParaRuntimeDummyUpgrade {
                                    node_name: name.clone(),
                                    para_id: pid,
                                    timeout: t,
                                },
                            ),
                            TailRead::Big(x) => StmtRead::Bad(x),
                            TailRead::Miss => StmtRead::Miss,
                        },
                    }
                } else if let Some(p3) = kw(chars, end, p2, "upgrade") {
                    match kw(chars, end, p3, "with") {
                        None => StmtRead::Miss,
                        Some(p4) => match token(chars, end, p4) {
                            None => StmtRead::Miss,
                            Some((fa, fb)) => match tail(text, chars, end, fb) {
                                TailRead::Done(t) => StmtRead::Hit(
                                    AssertionKind::ParaRuntimeUpgrade {
                                        node_name: name.clone(),
                                        para_id: pid,
                                        file_or_uri: extract(text, fa, fb),
                                        timeout: t,
                                    },
                                ),
                                TailRead::Big(x) => StmtRead::Bad(x),
                                TailRead::Miss => StmtRead::Miss,
                            },
                        },
                    }
                } else {
                    StmtRead::Miss
                }
            } else {
                StmtRead::Miss
            }
        },
    }
}

fn p_reports(text: &str, chars: &Vec<char>, end: usize, pos: usize, name: &String) -> (r: StmtRead)
    requires
        chars@ == text@,
        pos <= end <= chars@.len(),
    ensures
        stmt_read_view(r) == sp_reports(chars@, end as int, pos as int, name@),
{
    if let Some(p1) = kw(chars, end, pos, "histogram") {
        match token(chars, end, p1) {
            None => StmtRead::Miss,
            Some((ma, mb)) => match kw(chars, end, mb, "has") {
                None => StmtRead::Miss,
                Some(p2) => match cmp_or_int(text, chars, end, p2) {
                    CmpRead::Hit(op, tv, p3) => match kw(chars, end, p3, "samples") {
                        None => StmtRead::Miss,
                        Some(p4) => match kw(chars, end, p4, "in") {
                            None => StmtRead::Miss,
                            Some(p5) => match kw(chars, end, p5, "buckets") {
                                None => StmtRead::Miss,
                                Some(p6) => match buckets(text, chars, end, p6) {
                                    None => StmtRead::Miss,
                                    Some((bs, p7)) => match tail(text, chars, end, p7) {
                                        TailRead::Done(t) => StmtRead::Hit(
                                            AssertionKind::Histogram {
                                                node_name: name.clone(),
                                                metric_name: extract(text, ma, mb),
                                                op,
                                                target_value: tv,
                                                buckets: bs,
                                                timeout: t,
                                            },
                                        ),
                                        TailRead::Big(x) => StmtRead::Bad(x),
                                        TailRead::Miss => StmtRead::Miss,
                                    },
                                },
                            },
                        },
                    },
                    CmpRead::Big(x) => StmtRead::Bad(x),
                    CmpRead::Miss => StmtRead::Miss,
                },
            },
        }
    } else {
        match token(chars, end, pos) {
            None => StmtRead::Miss,
            Some((ma, mb)) => match cmp(text, chars, end, mb) {
                CmpRead::Hit(op, tv, p2) => match tail(text, chars, end, p2) {
                    TailRead::Done(t) => StmtRead::Hit(
                        AssertionKind::Report {
                            node_name: name.clone(),
                            metric_name: extract(text, ma, mb),
                            op,
                            target_value: tv,
                            timeout: t,
                        },
                    ),
                    TailRead::Big(x) => StmtRead::Bad(x),
                    TailRead::Miss => StmtRead::Miss,
                },
                CmpRead::Big(x) => StmtRead::Bad(x),
                CmpRead::Miss => StmtRead::Miss,
            },
        }
    }
}

fn match_type_name(glob: bool) -> (r: String)
    ensures
        r@ == sp_match_type_name(glob),
{
    if glob {
        String::from_str("glob")
    } else {
        String::from_str("regex")
    }
}

fn p_log(text: &str, chars: &Vec<char>, end: usize, pos: usize, name: &String) -> (r: StmtRead)
    requires
        chars@ == text@,
        pos <= end <= chars@.len(),
    ensures
        stmt_read_view(r) == sp_log(chars@, end as int, pos as int, name@),
{
    match kw(chars, end, pos, "line") {
        None => StmtRead::Miss,
        Some(p1) => {
            let verb = if let Some(p2) = kw(chars, end, p1, "contains") {
                Some(p2)
            } else {
                kw(chars, end, p1, "matches")
            };
            match verb {
                None => StmtRead::Miss,
                Some(p2) => match match_pat(chars, end, p2) {
                    None => StmtRead::Miss,
                    Some((glob, a, b, p3)) => match tail(text, chars, end, p3) {
                        TailRead::Done(t) => StmtRead::Hit(
                            AssertionKind::LogMatch {
                                node_name: name.clone(),
                                match_type: match_type_name(glob),
                                pattern: extract(text, a, b),
                                timeout: t,
                            },
                        ),
                        TailRead::Big(x) => StmtRead::Bad(x),
                        TailRead::Miss => StmtRead::Miss,
                    },
                },
            }
        },
    }
}

fn p_count(text: &str, chars: &Vec<char>, end: usize, pos: usize, name: &String) -> (r: StmtRead)
    requires
        chars@ == text@,
        pos <= end <= chars@.len(),
    ensures
        stmt_read_view(r) == sp_count(chars@, end as int, pos as int, name@),
{
    match kw(chars, end, pos, "of") {
        None => StmtRead::Miss,
        Some(p1) => match kw(chars, end, p1, "log") {
            None => StmtRead::Miss,
            Some(p2) => match kw(chars, end, p2, "lines") {
                None => StmtRead::Miss,
                Some(p3) => {
                    let verb = if let Some(p4) = kw(chars, end, p3, "containing") {
                        Some(p4)
                    } else {
                        kw(chars, end, p3, "matching")
                    };
                    match verb {
                        None => StmtRead::Miss,
                        Some(p4) => match match_pat(chars, end, p4) {
                            None => StmtRead::Miss,
                            Some((glob, a, b, p5)) => match cmp_or_int(text, chars, end, p5) {
                                CmpRead::Hit(op, tv, p6) => match tail(text, chars, end, p6) {
                                    TailRead::Done(t) => StmtRead::Hit(
                                        AssertionKind::CountLogMatch {
                                            node_name: name.clone(),
                                            match_type: match_type_name(glob),
                                            pattern: extract(text, a, b),
                                            op,
                                            target_value: tv,
                                            timeout: t,
                                        },
                                    ),
                                    TailRead::Big(x) => StmtRead::Bad(x),
                                    TailRead::Miss => StmtRead::Miss,
                                },
                                CmpRead::Big(x) => StmtRead::Bad(x),
                                CmpRead::Miss => StmtRead::Miss,
                            },
                        },
                    }
                },
            },
        },
    }
}

fn p_trace(text: &str, chars: &Vec<char>, end: usize, pos: usize, name: &String) -> (r: StmtRead)
    requires
        chars@ == text@,
        pos <= end <= chars@.len(),
    ensures
        stmt_read_view(r) == sp_trace(chars@, end as int, pos as int, name@),
{
    match kw(chars, end, pos, "with") {
        None => StmtRead::Miss,
        Some(p1) => match kw(chars, end, p1, "traceID") {
            None => StmtRead::Miss,
            Some(p2) => match token(chars, end, p2) {
                None => StmtRead::Miss,
                Some((sa, sb)) => match kw(chars, end, sb, "contains") {
                    None => StmtRead::Miss,
                    Some(p3) => match trace_pat(chars, end, p3) {
                        None => StmtRead::Miss,
                        Some((a, b, p4)) => match tail(text, chars, end, p4) {
                            TailRead::Done(t) => StmtRead::Hit(
                                AssertionKind::Trace {
                                    node_name: name.clone(),
                                    span_id: extract(text, sa, sb),
                                    pattern: extract(text, a, b),
                                    timeout: t,
                                },
                            ),
                            TailRead::Big(x) => StmtRead::Bad(x),
                            TailRead::Miss => StmtRead::Miss,
                        },
                    },
                },
            },
        },
    }
}

fn p_event(text: &str, chars: &Vec<char>, end: usize, pos: usize, name: &String) -> (r: StmtRead)
    requires
        chars@ == text@,
        pos <= end <= chars@.len(),
    ensures
        stmt_read_view(r) == sp_event(chars@, end as int, pos as int, name@),
{
    match kw(chars, end, pos, "event") {
        None => StmtRead::Miss,
        Some(p1) => {
            let verb = if let Some(p2) = kw(chars, end, p1, "contains") {
                Some(p2)
            } else {
                kw(chars, end, p1, "matches")
            };
            match verb {
                None => StmtRead::Miss,
                Some(p2) => match match_pat(chars, end, p2) {
                    None => StmtRead::Miss,
                    Some((glob, a, b, p3)) => match tail(text, chars, end, p3) {
                        TailRead::Done(t) => StmtRead::Hit(
                            AssertionKind::SystemEvent {
                                node_name: name.clone(),
                                match_type: match_type_name(glob),
                                pattern: extract(text, a, b),
                                timeout: t,
                            },
                        ),
                        TailRead::Big(x) => StmtRead::Bad(x),
                        TailRead::Miss => StmtRead::Miss,
                    },
                },
            }
        },
    }
}

fn mk_script(
    kind: ScriptKind,
    name: &String,
    path: String,
    args: Option<String>,
    cmpo: Option<Comparison>,
    timeout: Option<u64>,
) -> (r: AssertionKind)
    ensures
        r@ == sp_mk_script(
            kind,
            name@,
            path@,
            crate::ast::opt_string_view(args),
            cmpo,
            timeout,
        ),
{
    match kind {
        ScriptKind::Js => AssertionKind::CustomJs {
            node_name: name.clone(),
            file_path: path,
            custom_args: args,
            cmp: cmpo,
            timeout,
        },
        ScriptKind::Ts => AssertionKind::CustomTs {
            node_name: name.clone(),
            file_path: path,
            custom_args: args,
            cmp: cmpo,
            timeout,
        },
        ScriptKind::Sh => AssertionKind::CustomSh {
            node_name: name.clone(),
            file_path: path,
            custom_args: args,
            cmp: cmpo,
            timeout,
        },
    }
}

fn p_script(
    text: &str,
    chars: &Vec<char>,
    end: usize,
    pos: usize,
    name: &String,
    kind: ScriptKind,
) -> (r: StmtRead)
    requires
        chars@ == text@,
        pos <= end <= chars@.len(),
    ensures
        stmt_read_view(r) == sp_script(chars@, end as int, pos as int, name@, kind),
{
    match token(chars, end, pos) {
        None => StmtRead::Miss,
        Some((fa, fb)) => match script_clauses(text, chars, end, fb) {
            ClausesRead::Done(args, cmpo, t) => StmtRead::Hit(
                mk_script(kind, name, extract(text, fa, fb), args, cmpo, t),
            ),
            ClausesRead::Big(x) => StmtRead::Bad(x),
            ClausesRead::Dup => StmtRead::Dup,
            ClausesRead::Miss => StmtRead::Miss,
        },
    }
}

fn p_restart(text: &str, chars: &Vec<char>, end: usize, pos: usize, name: &String) -> (r: StmtRead)
    requires
        chars@ == text@,
        pos <= end <= chars@.len(),
    ensures
        stmt_read_view(r) == sp_restart(chars@, end as int, pos as int, name@),
{
    match delay(text, chars, end, pos, "after") {
        TailRead::Done(d) => StmtRead::Hit(
            AssertionKind::Restart { node_name: name.clone(), after: d },
        ),
        TailRead::Big(x) => StmtRead::Bad(x),
        TailRead::Miss => StmtRead::Miss,
    }
}

/// Match the statement grammar after `<name>:`.
pub fn statement(text: &str, chars: &Vec<char>, end: usize, pos: usize, name: &String) -> (r:
    StmtRead)
    requires
        chars@ == text@,
        pos <= end <= chars@.len(),
    ensures
        stmt_read_view(r) == sp_stmt(chars@, end as int, pos as int, name@),
{
    proof {
        reveal(sp_stmt);
    }
    if let Some(p) = kw(chars, end, pos, "is") {
        p_is_up(text, chars, end, p, name)
    } else if let Some(p) = kw(chars, end, pos, "parachain") {
        p_para(text, chars, end, p, name)
    } else if let Some(p) = kw(chars, end, pos, "reports") {
        p_reports(text, chars, end, p, name)
    } else if let Some(p) = kw(chars, end, pos, "log") {
        p_log(text, chars, end, p, name)
    } else if let Some(p) = kw(chars, end, pos, "count") {
        p_count(text, chars, end, p, name)
    } else if let Some(p) = kw(chars, end, pos, "trace") {
        p_trace(text, chars, end, p, name)
    } else if let Some(p) = kw(chars, end, pos, "system") {
        p_event(text, chars, end, p, name)
    } else if let Some(p) = kw(chars, end, pos, "js-script") {
        p_script(text, chars, end, p, name, ScriptKind::Js)
    } else if let Some(p) = kw(chars, end, pos, "ts-script") {
        p_script(text, chars, end, p, name, ScriptKind::Ts)
    } else if let Some(p) = kw(chars, end, pos, "run") {
        p_script(text, chars, end, p, name, ScriptKind::Sh)
    } else if let Some(p) = kw(chars, end, pos, "pause") {
        if line_done(chars, end, p) {
            StmtRead::Hit(AssertionKind::Pause { node_name: name.clone() })
        } else {
            StmtRead::Miss
        }
    } else if let Some(p) = kw(chars, end, pos, "resume") {
        if line_done(chars, end, p) {
            StmtRead::Hit(AssertionKind::Resume { node_name: name.clone() })
        } else {
            StmtRead::Miss
        }
    } else if let Some(p) = kw(chars, end, pos, "restart") {
        p_restart(text, chars, end, p, name)
    } else {
        StmtRead::Miss
    }
}

} // verus!
