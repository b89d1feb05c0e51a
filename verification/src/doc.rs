//! Line classification and document assembly.
//!
//! The source is processed line by line: each line is classified as a
//! header, a comment, a blank, or a statement, and a small state
//! machine folds the classified lines into the final document. Header
//! lines must precede the statements, in the order description,
//! network, credentials; the network and credentials headers are
//! mandatory, which is checked once the whole file has been read.

use vstd::prelude::*;
use vstd::string::*;

use crate::ast::opt_string_view;
use crate::ast::seq_view;
use crate::ast::Assertion;
use crate::ast::AssertionKind;
use crate::ast::AssertionKindV;
use crate::ast::AssertionV;
use crate::ast::TestDefinition;
use crate::ast::TestDefinitionV;
use crate::errors::ParserError;
use crate::errors::ParserErrorV;
use crate::scan::lemma_line_end_bounds;
use crate::scan::line_end_from;
use crate::scan::kw;
use crate::scan::line_done;
use crate::scan::name_run;
use crate::scan::number;
use crate::scan::rtrim;
use crate::scan::skip_ws;
use crate::scan::sp_kw;
use crate::scan::sp_line_done;
use crate::scan::sp_line_end;
use crate::scan::sp_name_run;
use crate::scan::sp_number;
use crate::scan::sp_rtrim;
use crate::scan::sp_skip_ws;
use crate::scan::NumRead;
use crate::stmt::extract;
use crate::stmt::sp_stmt;
use crate::stmt::sp_unit;
use crate::stmt::statement;
use crate::stmt::unit_word;
use crate::stmt::SpStmt;
use crate::stmt::StmtRead;

verus! {

/// The classification of one (right-trimmed) source line.
pub enum SpLine {
    Blank,
    Comment,
    Descr(Seq<char>),
    Netw(Seq<char>),
    CredsLine(Seq<char>),
    Stmt(AssertionKindV),
    BadLine(Seq<char>),
    Dup,
    NoRule,
}

/// `sleep <N> [seconds]`: the one statement without a node name.
pub open spec fn sp_sleep(s: Seq<char>, le: int, pos: int) -> SpLine {
    match sp_kw(s, le, pos, "sleep"@) {
        None => SpLine::NoRule,
        Some(p1) => match sp_number(s, le, p1) {
            None => SpLine::NoRule,
            Some((a, b, v)) => if v > u64::MAX {
                SpLine::BadLine(s.subrange(a, b))
            } else if sp_line_done(s, le, b) {
                SpLine::Stmt(AssertionKindV::Sleep { seconds: Some(v as u64) })
            } else {
                match sp_unit(s, le, b) {
                    Some(p2) => if sp_line_done(s, le, p2) {
                        SpLine::Stmt(AssertionKindV::Sleep { seconds: Some(v as u64) })
                    } else {
                        SpLine::NoRule
                    },
                    None => SpLine::NoRule,
                }
            },
        },
    }
}

/// Classify the right-trimmed line `[ls, le)`.
pub open spec fn sp_line(s: Seq<char>, ls: int, le: int) -> SpLine {
    let p = sp_skip_ws(s, le, ls);
    if p == le {
        SpLine::Blank
    } else if 0 <= p < s.len() && s[p] == '#' {
        SpLine::Comment
    } else {
        let b = sp_name_run(s, le, p);
        if b > p && b < le && 0 <= b < s.len() && s[b] == ':' {
            let name = s.subrange(p, b);
            let a2 = sp_skip_ws(s, le, b + 1);
            let value = s.subrange(a2, le);
            if name == "Description"@ {
                SpLine::Descr(value)
            } else if name == "Network"@ {
                if a2 == le {
                    SpLine::BadLine(s.subrange(ls, le))
                } else {
                    SpLine::Netw(value)
                }
            } else if name == "Creds"@ {
                if a2 == le {
                    SpLine::CredsLine("config"@)
                } else {
                    SpLine::CredsLine(value)
                }
            } else {
                match sp_stmt(s, le, b + 1, name) {
                    SpStmt::Hit(k) => SpLine::Stmt(k),
                    SpStmt::Bad(x) => SpLine::BadLine(x),
                    SpStmt::Dup => SpLine::Dup,
                    SpStmt::Miss => SpLine::NoRule,
                }
            }
        } else {
            sp_sleep(s, le, p)
        }
    }
}

/// Exec counterpart of [`SpLine`].
pub enum LineRead {
    Blank,
    Comment,
    Descr(String),
    Netw(String),
    CredsLine(String),
    Stmt(AssertionKind),
    BadLine(String),
    Dup,
    NoRule,
}

pub open spec fn line_read_view(r: LineRead) -> SpLine {
    match r {
        LineRead::Blank => SpLine::Blank,
        LineRead::Comment => SpLine::Comment,
        LineRead::Descr(v) => SpLine::Descr(v@),
        LineRead::Netw(v) => SpLine::Netw(v@),
        LineRead::CredsLine(v) => SpLine::CredsLine(v@),
        LineRead::Stmt(k) => SpLine::Stmt(k@),
        LineRead::BadLine(v) => SpLine::BadLine(v@),
        LineRead::Dup => SpLine::Dup,
        LineRead::NoRule => SpLine::NoRule,
    }
}

/// The grammar engine: it recognizes the language one line at a time,
/// turning raw text into typed rule matches.
pub struct ZombieNetParser;

impl ZombieNetParser {
    /// Classify the right-trimmed line `[ls, le)` of the source.
    pub fn classify_line(text: &str, chars: &Vec<char>, ls: usize, le: usize) -> (r: LineRead)
        requires
            chars@ == text@,
            ls <= le <= chars@.len(),
        ensures
            line_read_view(r) == sp_line(chars@, ls as int, le as int),
    {
        let p = skip_ws(chars, le, ls);
        if p == le {
            return LineRead::Blank;
        }
        if chars[p] == '#' {
            return LineRead::Comment;
        }
        let b = name_run(chars, le, p);
        if b > p && b < le && chars[b] == ':' {
            let name_s = extract(text, p, b);
            let a2 = skip_ws(chars, le, b + 1);
            if name_s == String::from_str("Description") {
                LineRead::Descr(extract(text, a2, le))
            } else if name_s == String::from_str("Network") {
                if a2 == le {
                    LineRead::BadLine(extract(text, ls, le))
                } else {
                    LineRead::Netw(extract(text, a2, le))
                }
            } else if name_s == String::from_str("Creds") {
                if a2 == le {
                    LineRead::CredsLine(String::from_str("config"))
                } else {
                    LineRead::CredsLine(extract(text, a2, le))
                }
            } else {
                match statement(text, chars, le, b + 1, &name_s) {
                    StmtRead::Hit(k) => LineRead::Stmt(k),
                    StmtRead::Bad(x) => LineRead::BadLine(x),
                    StmtRead::Dup => LineRead::Dup,
                    StmtRead::Miss => LineRead::NoRule,
                }
            }
        } else {
            match kw(chars, le, p, "sleep") {
                None => LineRead::NoRule,
                Some(p1) => match number(chars, le, p1) {
                    NumRead::NoNum => LineRead::NoRule,
                    NumRead::Big(a, b2) => LineRead::BadLine(extract(text, a, b2)),
                    NumRead::Num(v, a, b2, q) => {
                        if line_done(chars, le, b2) {
                            LineRead::Stmt(AssertionKind::Sleep { seconds: Some(v) })
                        } else {
                            match unit_word(chars, le, b2) {
                                Some(p2) => if line_done(chars, le, p2) {
                                    LineRead::Stmt(AssertionKind::Sleep { seconds: Some(v) })
                                } else {
                                    LineRead::NoRule
                                },
                                None => LineRead::NoRule,
                            }
                        }
                    },
                },
            }
        }
    }
}

/// The assembly state: which headers have been seen (`phase` grows
/// from 0, description allowed, through 3, statements only) and what
/// has been collected so far.
pub struct SpDocSt {
    pub phase: int,
    pub description: Option<Seq<char>>,
    pub network: Option<Seq<char>>,
    pub creds: Option<Seq<char>>,
    pub assertions: Seq<AssertionV>,
}

pub open spec fn sp_init_st() -> SpDocSt {
    SpDocSt {
        phase: 0,
        description: None,
        network: None,
        creds: None,
        assertions: Seq::empty(),
    }
}

/// The document-level check once every line is read: network and
/// credentials must both have been seen.
pub open spec fn sp_finalize(st: SpDocSt) -> Result<TestDefinitionV, ParserErrorV> {
    match (st.network, st.creds) {
        (Some(n), Some(c)) => Ok(
            TestDefinitionV {
                description: st.description,
                network: n,
                creds: c,
                assertions: st.assertions,
            },
        ),
        (None, Some(c)) => Err(ParserErrorV::MissingFields("Network"@)),
        (Some(n), None) => Err(ParserErrorV::MissingFields("Creds"@)),
        (None, None) => Err(ParserErrorV::MissingFields("Network, Creds"@)),
    }
}

/// Fold one classified line into the state. Header lines are accepted
/// only in their place (description, then network, then credentials,
/// all before the first statement); a header out of place is a
/// `ParseError` carrying the line.
pub open spec fn sp_step(s: Seq<char>, ls: int, le: int, st: SpDocSt) -> Result<
    SpDocSt,
    ParserErrorV,
> {
    let line = s.subrange(ls, le);
    match sp_line(s, ls, le) {
        SpLine::Blank => Ok(st),
        SpLine::Comment => Ok(st),
        SpLine::Descr(v) => if st.phase == 0 {
            Ok(
                SpDocSt {
                    phase: 1,
                    description: Some(v),
                    network: st.network,
                    creds: st.creds,
                    assertions: st.assertions,
                },
            )
        } else {
            Err(ParserErrorV::ParseError(line))
        },
        SpLine::Netw(v) => if st.phase <= 1 {
            Ok(
                SpDocSt {
                    phase: 2,
                    description: st.description,
                    network: Some(v),
                    creds: st.creds,
                    assertions: st.assertions,
                },
            )
        } else {
            Err(ParserErrorV::ParseError(line))
        },
        SpLine::CredsLine(v) => if st.phase <= 2 {
            Ok(
                SpDocSt {
                    phase: 3,
                    description: st.description,
                    network: st.network,
                    creds: Some(v),
                    assertions: st.assertions,
                },
            )
        } else {
            Err(ParserErrorV::ParseError(line))
        },
        SpLine::Stmt(k) => Ok(
            SpDocSt {
                phase: 3,
                description: st.description,
                network: st.network,
                creds: st.creds,
                assertions: st.assertions.push(AssertionV { original_line: line, parsed: k }),
            },
        ),
        SpLine::BadLine(x) => Err(ParserErrorV::ParseError(x)),
        SpLine::Dup => Err(ParserErrorV::UnreachableRule(line)),
        SpLine::NoRule => Err(ParserErrorV::InvalidRule(line)),
    }
}

/// Fold the lines of `s` from `pos` on into the state, then validate.
/// The first error anywhere aborts the parse.
pub open spec fn sp_doc(s: Seq<char>, pos: int, st: SpDocSt) -> Result<
    TestDefinitionV,
    ParserErrorV,
>
    decreases s.len() - pos,
{
    if pos < 0 || pos >= s.len() {
        sp_finalize(st)
    } else {
        let le = sp_line_end(s, pos);
        let le2 = sp_rtrim(s, pos, le);
        proof {
            lemma_line_end_bounds(s, pos);
        }
        match sp_step(s, pos, le2, st) {
            Err(e) => Err(e),
            Ok(st2) => {
                if le + 1 <= s.len() {
                    sp_doc(s, le + 1, st2)
                } else {
                    sp_finalize(st2)
                }
            },
        }
    }
}

/// What [`crate::parse`] returns, as a mathematical function of the
/// source text.
pub open spec fn sp_parse(s: Seq<char>) -> Result<TestDefinitionV, ParserErrorV> {
    sp_doc(s, 0, sp_init_st())
}

pub open spec fn parse_res_view(r: Result<TestDefinition, ParserError>) -> Result<
    TestDefinitionV,
    ParserErrorV,
> {
    match r {
        Ok(d) => Ok(d@),
        Err(e) => Err(e@),
    }
}

/// Exec counterpart of [`SpDocSt`].
pub struct DocState {
    pub phase: u8,
    pub description: Option<String>,
    pub network: Option<String>,
    pub creds: Option<String>,
    pub assertions: Vec<Assertion>,
}

pub open spec fn doc_state_view(st: DocState) -> SpDocSt {
    SpDocSt {
        phase: st.phase as int,
        description: opt_string_view(st.description),
        network: opt_string_view(st.network),
        creds: opt_string_view(st.creds),
        assertions: seq_view(st.assertions@),
    }
}

/// Fold one classified line into the state; exec mirror of [`sp_step`].
fn step_line(text: &str, chars: &Vec<char>, ls: usize, le: usize, st: DocState) -> (r: Result<
    DocState,
    ParserError,
>)
    requires
        chars@ == text@,
        ls <= le <= chars@.len(),
        st.phase <= 3,
    ensures
        match r {
            Ok(st2) => sp_step(chars@, ls as int, le as int, doc_state_view(st)) == Ok::<
                SpDocSt,
                ParserErrorV,
            >(doc_state_view(st2)) && st2.phase <= 3,
            Err(e) => sp_step(chars@, ls as int, le as int, doc_state_view(st)) == Err::<
                SpDocSt,
                ParserErrorV,
            >(e@),
        },
{
    let mut st = st;
    match ZombieNetParser::classify_line(text, chars, ls, le) {
        LineRead::Blank => Ok(st),
        LineRead::Comment => Ok(st),
        LineRead::Descr(v) => {
            if st.phase != 0 {
                return Err(ParserError::ParseError(extract(text, ls, le)));
            }
            st.description = Some(v);
            st.phase = 1;
            Ok(st)
        },
        LineRead::Netw(v) => {
            if st.phase > 1 {
                return Err(ParserError::ParseError(extract(text, ls, le)));
            }
            st.network = Some(v);
            st.phase = 2;
            Ok(st)
        },
        LineRead::CredsLine(v) => {
            if st.phase > 2 {
                return Err(ParserError::ParseError(extract(text, ls, le)));
            }
            st.creds = Some(v);
            st.phase = 3;
            Ok(st)
        },
        LineRead::Stmt(k) => {
            let ghost prev = seq_view(st.assertions@);
            let a = Assertion { original_line: extract(text, ls, le), parsed: k };
            let ghost av = a@;
            st.assertions.push(a);
            st.phase = 3;
            proof {
                assert(seq_view(st.assertions@) =~= prev.push(av));
            }
            Ok(st)
        },
        LineRead::BadLine(x) => Err(ParserError::ParseError(x)),
        LineRead::Dup => Err(ParserError::UnreachableRule(extract(text, ls, le))),
        LineRead::NoRule => Err(ParserError::InvalidRule(extract(text, ls, le))),
    }
}

/// The characters of the source, for random access while scanning.
fn chars_of(text: &str) -> (r: Vec<char>)
    ensures
        r@ == text@,
{
    let n = text.unicode_len();
    let mut v: Vec<char> = Vec::new();
    let mut i: usize = 0;
    while i < n
        invariant
            i <= n,
            n == text@.len(),
            v@ == text@.subrange(0, i as int),
        decreases n - i,
    {
        v.push(text.get_char(i));
        proof {
            assert(v@ =~= text@.subrange(0, i + 1));
        }
        i = i + 1;
    }
    proof {
        assert(text@.subrange(0, n as int) =~= text@);
    }
    v
}

/// Parse the raw text of a test-definition file into the typed
/// document, or report the first error encountered. The parse is a
/// pure function of the text: the result is exactly [`sp_parse`] of
/// the character sequence.
pub fn parse(text: &str) -> (r: Result<TestDefinition, ParserError>)
    ensures
        parse_res_view(r) == sp_parse(text@),
{
    let chars = chars_of(text);
    let n = chars.len();
    let mut st = DocState {
        phase: 0,
        description: None,
        network: None,
        creds: None,
        assertions: Vec::new(),
    };
    let mut pos: usize = 0;
    proof {
        assert(seq_view(st.assertions@) =~= Seq::<AssertionV>::empty());
        assert(doc_state_view(st) == sp_init_st());
    }
    while pos < n
        invariant
            chars@ == text@,
            pos <= n == chars@.len(),
            st.phase <= 3,
            sp_doc(text@, pos as int, doc_state_view(st)) == sp_parse(text@),
        decreases n - pos,
    {
        let le = line_end_from(&chars, pos);
        let le2 = rtrim(&chars, pos, le);
        match step_line(text, &chars, pos, le2, st) {
            Err(e) => {
                return Err(e);
            },
            Ok(st2) => {
                st = st2;
            },
        }
        if le < n {
            pos = le + 1;
        } else {
            pos = n;
        }
    }
    if st.network.is_none() && st.creds.is_none() {
        return Err(ParserError::MissingFields(String::from_str("Network, Creds")));
    }
    if st.network.is_none() {
        return Err(ParserError::MissingFields(String::from_str("Network")));
    }
    if st.creds.is_none() {
        return Err(ParserError::MissingFields(String::from_str("Creds")));
    }
    Ok(
        TestDefinition {
            description: st.description,
            network: st.network.unwrap(),
            creds: st.creds.unwrap(),
            assertions: st.assertions,
        },
    )
}

} // verus!
