//! Laws of the grammar, stated and proved once and for all inputs.
//!
//! Each public proof function here is a statement about the spec-level
//! grammar ([`crate::doc::sp_parse`] and its parts); the executable
//! parser obeys them through its contract, which pins it to the same
//! functions.

use vstd::prelude::*;

use crate::ast::AssertionV;
use crate::ast::Operator;
use crate::ast::TestDefinitionV;
use crate::doc::sp_doc;
use crate::doc::sp_init_st;
use crate::doc::sp_line;
use crate::doc::sp_parse;
use crate::doc::sp_step;
use crate::doc::SpDocSt;
use crate::doc::SpLine;
use crate::errors::ParserErrorV;
use crate::scan::lemma_line_end_bounds;
use crate::scan::sp_kw;
use crate::scan::sp_line_end;
use crate::scan::sp_rtrim;
use crate::scan::sp_skip_ws;
use crate::scan::sp_line_done;
use crate::scan::sp_number;
use crate::stmt::sp_cmp;
use crate::stmt::sp_cmp_or_int;
use crate::stmt::sp_match_pat;
use crate::stmt::sp_match_type_name;
use crate::stmt::sp_op;
use crate::stmt::sp_tail;
use crate::stmt::SpCmp;
use crate::stmt::SpTail;

verus! {

/// Each of the six operator phrases, standing as a whole line, maps to
/// exactly one of the six operators, with no overlap: "is" to `Equal`,
/// "is not" to `NotEqual`, "is above" to `IsAbove`, "is at least" to
/// `IsAtLeast`, "is below" to `IsBelow`, "is at most" to `IsAtMost`.
pub proof fn lemma_operator_phrases()
    ensures
        sp_op("is"@, 2, 0) == Some((Operator::Equal, 2int)),
        sp_op("is not"@, 6, 0) == Some((Operator::NotEqual, 6int)),
        sp_op("is above"@, 8, 0) == Some((Operator::IsAbove, 8int)),
        sp_op("is at least"@, 11, 0) == Some((Operator::IsAtLeast, 11int)),
        sp_op("is below"@, 8, 0) == Some((Operator::IsBelow, 8int)),
        sp_op("is at most"@, 10, 0) == Some((Operator::IsAtMost, 10int)),
{
    reveal_strlit("is");
    reveal_strlit("not");
    reveal_strlit("above");
    reveal_strlit("below");
    reveal_strlit("at");
    reveal_strlit("least");
    reveal_strlit("most");
    reveal_strlit("is not");
    reveal_strlit("is above");
    reveal_strlit("is at least");
    reveal_strlit("is below");
    reveal_strlit("is at most");
    reveal_with_fuel(sp_skip_ws, 5);
    assert(("is"@).subrange(0, 2) =~= "is"@);
    assert(("is not"@).subrange(0, 2) =~= "is"@);
    assert(("is not"@).subrange(3, 6) =~= "not"@);
    assert(("is above"@).subrange(0, 2) =~= "is"@);
    assert(("is above"@).subrange(3, 8) =~= "above"@);
    assert(("is at least"@).subrange(0, 2) =~= "is"@);
    assert(("is at least"@).subrange(3, 5) =~= "at"@);
    assert(("is at least"@).subrange(6, 11) =~= "least"@);
    assert(("is below"@).subrange(0, 2) =~= "is"@);
    assert(("is below"@).subrange(3, 8) =~= "below"@);
    assert(("is at most"@).subrange(0, 2) =~= "is"@);
    assert(("is at most"@).subrange(3, 5) =~= "at"@);
    assert(("is at most"@).subrange(6, 10) =~= "most"@);
    assert(sp_op("is"@, 2, 0) == Some((Operator::Equal, 2int)));
    assert(sp_op("is not"@, 6, 0) == Some((Operator::NotEqual, 6int)));
    assert(sp_op("is above"@, 8, 0) == Some((Operator::IsAbove, 8int)));
    assert(sp_op("is at least"@, 11, 0) == Some((Operator::IsAtLeast, 11int)));
    assert(sp_kw("is below"@, 8, 0, "is"@) == Some(2int));
    assert(sp_kw("is below"@, 8, 2, "not"@) is None);
    assert(("above"@)[0] != ("below"@)[0]);
    assert(sp_kw("is below"@, 8, 2, "above"@) is None);
    assert(sp_kw("is below"@, 8, 2, "below"@) == Some(8int));
    assert(sp_op("is below"@, 8, 0) == Some((Operator::IsBelow, 8int)));
    assert(sp_op("is at most"@, 10, 0) == Some((Operator::IsAtMost, 10int)));
}

/// A statement's trailing timeout clause is optional, and its absence
/// means "no deadline": the tail yields `None` exactly when nothing but
/// whitespace follows the statement; it never turns absence into zero.
pub proof fn lemma_timeout_absence(s: Seq<char>, end: int, pos: int)
    requires
        0 <= pos <= end <= s.len(),
    ensures
        sp_tail(s, end, pos) == SpTail::Done(None::<u64>) <==> sp_line_done(s, end, pos),
{
}

/// A match pattern without an explicit match-type keyword defaults to a
/// regular-expression match: when neither "glob" nor "regex" stands
/// before the quoted pattern, the match type reads "regex".
pub proof fn lemma_match_type_default(s: Seq<char>, end: int, pos: int)
    requires
        0 <= pos <= end <= s.len(),
        sp_kw(s, end, pos, "glob"@) is None,
        sp_kw(s, end, pos, "regex"@) is None,
    ensures
        sp_match_pat(s, end, pos) matches Some((glob, a, b, p)) ==> glob == false,
        sp_match_type_name(false) == "regex"@,
{
}

/// A bare integer standing where a comparison may stand defaults the
/// operator to `Equal`, with the integer as the target value.
pub proof fn lemma_bare_int_defaults_equal(s: Seq<char>, end: int, pos: int, a: int, b: int, v: int)
    requires
        0 <= pos <= end <= s.len(),
        sp_op(s, end, pos) is None,
        sp_number(s, end, pos) == Some((a, b, v)),
        v <= u64::MAX,
    ensures
        sp_cmp(s, end, pos) == SpCmp::Miss,
        sp_cmp_or_int(s, end, pos) == SpCmp::Hit(Operator::Equal, v, b),
{
}

/// The parsed assertions of the statement lines from `pos` on, in
/// source order, each paired with its right-trimmed line text.
pub open spec fn sp_collect(s: Seq<char>, pos: int) -> Seq<AssertionV>
    decreases s.len() - pos,
{
    if pos < 0 || pos >= s.len() {
        Seq::empty()
    } else {
        let le = sp_line_end(s, pos);
        let le2 = sp_rtrim(s, pos, le);
        let head = match sp_line(s, pos, le2) {
            SpLine::Stmt(k) => seq![AssertionV { original_line: s.subrange(pos, le2), parsed: k }],
            _ => Seq::empty(),
        };
        proof {
            lemma_line_end_bounds(s, pos);
        }
        if le + 1 <= s.len() {
            head + sp_collect(s, le + 1)
        } else {
            head
        }
    }
}

proof fn lemma_doc_assertions(s: Seq<char>, pos: int, st: SpDocSt, d: TestDefinitionV)
    requires
        sp_doc(s, pos, st) == Ok::<TestDefinitionV, ParserErrorV>(d),
    ensures
        d.assertions == st.assertions + sp_collect(s, pos),
    decreases s.len() - pos,
{
    if pos < 0 || pos >= s.len() {
        assert(d.assertions =~= st.assertions + Seq::<AssertionV>::empty());
    } else {
        let le = sp_line_end(s, pos);
        let le2 = sp_rtrim(s, pos, le);
        lemma_line_end_bounds(s, pos);
        match sp_step(s, pos, le2, st) {
            Err(e) => {
                assert(false);
            },
            Ok(st2) => {
                let rest = if le + 1 <= s.len() {
                    sp_collect(s, le + 1)
                } else {
                    Seq::<AssertionV>::empty()
                };
                if le + 1 <= s.len() {
                    lemma_doc_assertions(s, le + 1, st2, d);
                } else {
                    assert(d.assertions =~= st2.assertions + rest);
                }
                match sp_line(s, pos, le2) {
                    SpLine::Stmt(k) => {
                        let a = AssertionV { original_line: s.subrange(pos, le2), parsed: k };
                        assert(st2.assertions == st.assertions.push(a));
                        assert(st.assertions.push(a) + rest =~= st.assertions + (seq![a] + rest));
                    },
                    _ => {
                        assert(st2.assertions == st.assertions);
                        assert(st.assertions + rest =~= st.assertions + (
                        Seq::<AssertionV>::empty() + rest));
                    },
                }
            },
        }
    }
}

/// Ordering invariant: a successful parse returns exactly the
/// assertions of the file's statement lines, in source order, with no
/// reordering, duplication or loss.
pub proof fn lemma_assertion_order(s: Seq<char>, d: TestDefinitionV)
    requires
        sp_parse(s) == Ok::<TestDefinitionV, ParserErrorV>(d),
    ensures
        d.assertions == sp_collect(s, 0),
{
    lemma_doc_assertions(s, 0, sp_init_st(), d);
    assert(Seq::<AssertionV>::empty() + sp_collect(s, 0) =~= sp_collect(s, 0));
}

/// A position where a source line begins: the start of the text, or
/// just after a line break.
pub open spec fn sp_line_start(s: Seq<char>, a: int) -> bool {
    0 <= a <= s.len() && (a == 0 || s[a - 1] == '\n')
}

/// The text of the line beginning at `a`, with trailing whitespace
/// removed and nothing else changed.
pub open spec fn sp_line_text(s: Seq<char>, a: int) -> Seq<char> {
    s.subrange(a, sp_rtrim(s, a, sp_line_end(s, a)))
}

proof fn lemma_collect_lines(s: Seq<char>, pos: int)
    requires
        sp_line_start(s, pos),
    ensures
        forall|i: int|
            0 <= i < sp_collect(s, pos).len() ==> exists|a: int|
                sp_line_start(s, a) && #[trigger] sp_collect(s, pos)[i].original_line
                    == sp_line_text(s, a),
    decreases s.len() - pos,
{
    if 0 <= pos < s.len() {
        let le = sp_line_end(s, pos);
        let le2 = sp_rtrim(s, pos, le);
        lemma_line_end_bounds(s, pos);
        let head = match sp_line(s, pos, le2) {
            SpLine::Stmt(k) => seq![AssertionV { original_line: s.subrange(pos, le2), parsed: k }],
            _ => Seq::<AssertionV>::empty(),
        };
        let rest = if le + 1 <= s.len() {
            sp_collect(s, le + 1)
        } else {
            Seq::<AssertionV>::empty()
        };
        if le + 1 <= s.len() {
            lemma_collect_lines(s, le + 1);
        }
        assert(sp_collect(s, pos) == head + rest);
        assert forall|i: int| 0 <= i < sp_collect(s, pos).len() implies exists|a: int|
            sp_line_start(s, a) && #[trigger] sp_collect(s, pos)[i].original_line == sp_line_text(
                s,
                a,
            ) by {
            if i < head.len() {
                assert(sp_collect(s, pos)[i].original_line == s.subrange(pos, le2));
                assert(sp_line_start(s, pos) && sp_collect(s, pos)[i].original_line
                    == sp_line_text(s, pos));
            } else {
                let j = i - head.len();
                assert(sp_collect(s, pos)[i] == rest[j]);
                let a = choose|a: int|
                    sp_line_start(s, a) && #[trigger] rest[j].original_line == sp_line_text(s, a);
                assert(sp_line_start(s, a) && sp_collect(s, pos)[i].original_line == sp_line_text(
                    s,
                    a,
                ));
            }
        }
    }
}

/// Round-trip stability: each assertion of a successful parse carries
/// as its `original_line` the exact text of one source line, with only
/// trailing whitespace removed.
pub proof fn lemma_round_trip(s: Seq<char>, d: TestDefinitionV)
    requires
        sp_parse(s) == Ok::<TestDefinitionV, ParserErrorV>(d),
    ensures
        forall|i: int|
            0 <= i < d.assertions.len() ==> exists|a: int|
                sp_line_start(s, a) && #[trigger] d.assertions[i].original_line == sp_line_text(
                    s,
                    a,
                ),
{
    lemma_assertion_order(s, d);
    lemma_collect_lines(s, 0);
    assert forall|i: int| 0 <= i < d.assertions.len() implies exists|a: int|
        sp_line_start(s, a) && #[trigger] d.assertions[i].original_line == sp_line_text(s, a) by {
        assert(d.assertions[i] == sp_collect(s, 0)[i]);
        let a = choose|a: int|
            sp_line_start(s, a) && #[trigger] sp_collect(s, 0)[i].original_line == sp_line_text(
                s,
                a,
            );
        assert(sp_line_start(s, a) && d.assertions[i].original_line == sp_line_text(s, a));
    }
}

/// Does some line from `pos` on read as a network header?
pub open spec fn sp_has_network(s: Seq<char>, pos: int) -> bool
    decreases s.len() - pos,
{
    if pos < 0 || pos >= s.len() {
        false
    } else {
        let le = sp_line_end(s, pos);
        let le2 = sp_rtrim(s, pos, le);
        proof {
            lemma_line_end_bounds(s, pos);
        }
        (sp_line(s, pos, le2) matches SpLine::Netw(v)) || (le + 1 <= s.len() && sp_has_network(
            s,
            le + 1,
        ))
    }
}

/// Does some line from `pos` on read as a credentials header?
pub open spec fn sp_has_creds(s: Seq<char>, pos: int) -> bool
    decreases s.len() - pos,
{
    if pos < 0 || pos >= s.len() {
        false
    } else {
        let le = sp_line_end(s, pos);
        let le2 = sp_rtrim(s, pos, le);
        proof {
            lemma_line_end_bounds(s, pos);
        }
        (sp_line(s, pos, le2) matches SpLine::CredsLine(v)) || (le + 1 <= s.len() && sp_has_creds(
            s,
            le + 1,
        ))
    }
}

proof fn lemma_doc_needs_headers(s: Seq<char>, pos: int, st: SpDocSt, d: TestDefinitionV)
    requires
        sp_doc(s, pos, st) == Ok::<TestDefinitionV, ParserErrorV>(d),
    ensures
        st.network is None ==> sp_has_network(s, pos),
        st.creds is None ==> sp_has_creds(s, pos),
    decreases s.len() - pos,
{
    if 0 <= pos < s.len() {
        let le = sp_line_end(s, pos);
        let le2 = sp_rtrim(s, pos, le);
        lemma_line_end_bounds(s, pos);
        match sp_step(s, pos, le2, st) {
            Err(e) => {
                assert(false);
            },
            Ok(st2) => {
                if le + 1 <= s.len() {
                    lemma_doc_needs_headers(s, le + 1, st2, d);
                }
            },
        }
    }
}

/// Header enforcement: the parse can only succeed when the file holds
/// a network line and a credentials line; a file missing either cannot
/// produce a document.
pub proof fn lemma_success_has_headers(s: Seq<char>, d: TestDefinitionV)
    requires
        sp_parse(s) == Ok::<TestDefinitionV, ParserErrorV>(d),
    ensures
        sp_has_network(s, 0),
        sp_has_creds(s, 0),
{
    lemma_doc_needs_headers(s, 0, sp_init_st(), d);
}

proof fn lemma_msg_distinct()
    ensures
        "Network"@ != "Creds"@,
        "Network"@ != "Network, Creds"@,
        "Creds"@ != "Network, Creds"@,
{
    reveal_strlit("Network");
    reveal_strlit("Creds");
    reveal_strlit("Network, Creds");
    assert("Network"@.len() == 7);
    assert("Creds"@.len() == 5);
    assert("Network, Creds"@.len() == 14);
}

proof fn lemma_doc_missing(s: Seq<char>, pos: int, st: SpDocSt, m: Seq<char>)
    requires
        sp_doc(s, pos, st) == Err::<TestDefinitionV, ParserErrorV>(ParserErrorV::MissingFields(m)),
    ensures
        m == "Network"@ || m == "Creds"@ || m == "Network, Creds"@,
        (m == "Network"@ || m == "Network, Creds"@) ==> st.network is None && !sp_has_network(
            s,
            pos,
        ),
        (m == "Creds"@ || m == "Network, Creds"@) ==> st.creds is None && !sp_has_creds(s, pos),
    decreases s.len() - pos,
{
    lemma_msg_distinct();
    if pos < 0 || pos >= s.len() {
    } else {
        let le = sp_line_end(s, pos);
        let le2 = sp_rtrim(s, pos, le);
        lemma_line_end_bounds(s, pos);
        match sp_step(s, pos, le2, st) {
            Err(e) => {
                assert(false);
            },
            Ok(st2) => {
                if le + 1 <= s.len() {
                    lemma_doc_missing(s, le + 1, st2, m);
                }
                match sp_line(s, pos, le2) {
                    SpLine::Netw(v) => {
                        assert(st2.network is Some);
                    },
                    SpLine::CredsLine(v) => {
                        assert(st2.creds is Some);
                    },
                    _ => {
                        assert(st2.network == st.network);
                        assert(st2.creds == st.creds);
                    },
                }
            },
        }
    }
}

/// A `MissingFields` failure names exactly the headers the file lacks:
/// the message is "Network", "Creds" or "Network, Creds", and each
/// named header has no line anywhere in the file.
pub proof fn lemma_missing_fields_names_absent_headers(s: Seq<char>, m: Seq<char>)
    requires
        sp_parse(s) == Err::<TestDefinitionV, ParserErrorV>(ParserErrorV::MissingFields(m)),
    ensures
        m == "Network"@ || m == "Creds"@ || m == "Network, Creds"@,
        (m == "Network"@ || m == "Network, Creds"@) ==> !sp_has_network(s, 0),
        (m == "Creds"@ || m == "Network, Creds"@) ==> !sp_has_creds(s, 0),
{
    lemma_doc_missing(s, 0, sp_init_st(), m);
}

/// A file without a network line, or without a credentials line,
/// never parses to a document.
pub proof fn lemma_missing_header_fails(s: Seq<char>)
    requires
        !sp_has_network(s, 0) || !sp_has_creds(s, 0),
    ensures
        sp_parse(s) is Err,
{
    if let Ok(d) = sp_parse(s) {
        lemma_success_has_headers(s, d);
    }
}

} // verus!
