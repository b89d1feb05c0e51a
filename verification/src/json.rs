//! JSON rendering of a parsed document.
//!
//! The external representation of a [`TestDefinition`] is an object
//! with the header fields and the assertion list; each assertion
//! carries its verbatim source line and a `{"fn": tag, "args": fields}`
//! object for the parsed statement. Timeouts render as plain integer
//! seconds or `null`.
//!
//! The shape is defined by the spec functions here, character by
//! character; the exec renderers are proved to produce exactly that
//! text. Strings are escaped for the quote, backslash, line break,
//! carriage return and tab characters; other characters are kept as
//! they are.

use vstd::prelude::*;
use vstd::string::*;

use crate::ast::Assertion;
use crate::ast::AssertionKindV;
use crate::ast::AssertionV;
use crate::ast::Comparison;
use crate::ast::Operator;
use crate::ast::TestDefinition;
use crate::ast::TestDefinitionV;
use crate::ast::seq_view;
use crate::doc::parse;
use crate::doc::sp_parse;
use crate::errors::sp_message;

verus! {

pub open spec fn dig_lit(d: int) -> Seq<char> {
    if d == 0 {
        "0"@
    } else if d == 1 {
        "1"@
    } else if d == 2 {
        "2"@
    } else if d == 3 {
        "3"@
    } else if d == 4 {
        "4"@
    } else if d == 5 {
        "5"@
    } else if d == 6 {
        "6"@
    } else if d == 7 {
        "7"@
    } else if d == 8 {
        "8"@
    } else {
        "9"@
    }
}

/// The decimal numeral of `n`, without leading zeros.
pub open spec fn dec_of(n: int) -> Seq<char>
    decreases n,
{
    if n < 10 {
        dig_lit(n)
    } else {
        dec_of(n / 10) + dig_lit(n % 10)
    }
}

pub open spec fn esc_char(c: char) -> Seq<char> {
    if c == '"' {
        "\\\""@
    } else if c == '\\' {
        "\\\\"@
    } else if c == '\n' {
        "\\n"@
    } else if c == '\r' {
        "\\r"@
    } else if c == '\t' {
        "\\t"@
    } else {
        seq![c]
    }
}

pub open spec fn json_escaped(s: Seq<char>) -> Seq<char>
    decreases s.len(),
{
    if s.len() == 0 {
        Seq::empty()
    } else {
        json_escaped(s.drop_last()) + esc_char(s.last())
    }
}

/// A JSON string literal: the escaped text between double quotes.
pub open spec fn json_str(s: Seq<char>) -> Seq<char> {
    "\""@ + json_escaped(s) + "\""@
}

pub open spec fn json_opt_num(t: Option<u64>) -> Seq<char> {
    match t {
        None => "null"@,
        Some(v) => dec_of(v as int),
    }
}

pub open spec fn json_opt_str(s: Option<Seq<char>>) -> Seq<char> {
    match s {
        None => "null"@,
        Some(v) => json_str(v),
    }
}

pub open spec fn json_op(op: Operator) -> Seq<char> {
    match op {
        Operator::Equal => "\"Equal\""@,
        Operator::NotEqual => "\"NotEqual\""@,
        Operator::IsAbove => "\"IsAbove\""@,
        Operator::IsAtLeast => "\"IsAtLeast\""@,
        Operator::IsBelow => "\"IsBelow\""@,
        Operator::IsAtMost => "\"IsAtMost\""@,
    }
}

pub open spec fn json_cmp(c: Option<Comparison>) -> Seq<char> {
    match c {
        None => "null"@,
        Some(c) => "{\"op\":"@ + json_op(c.op) + ",\"target_value\":"@ + dec_of(
            c.target_value as int,
        ) + "}"@,
    }
}

pub open spec fn json_bucket_items(bs: Seq<Seq<char>>) -> Seq<char>
    decreases bs.len(),
{
    if bs.len() == 0 {
        Seq::empty()
    } else if bs.len() == 1 {
        json_str(bs[0])
    } else {
        json_bucket_items(bs.drop_last()) + ","@ + json_str(bs.last())
    }
}

pub open spec fn json_buckets(bs: Seq<Seq<char>>) -> Seq<char> {
    "["@ + json_bucket_items(bs) + "]"@
}

/// The `{"fn": tag, "args": fields}` object of one statement.
pub open spec fn json_kind(k: AssertionKindV) -> Seq<char> {
    match k {
        AssertionKindV::IsUp { node_name, timeout } => "{\"fn\":\"IsUp\",\"args\":{\"node_name\":"@
            + json_str(node_name) + ",\"timeout\":"@ + json_opt_num(timeout) + "}}"@,
        AssertionKindV::ParaIsRegistered { node_name, para_id, timeout } => {
            "{\"fn\":\"ParaIsRegistered\",\"args\":{\"node_name\":"@ + json_str(node_name)
                + ",\"para_id\":"@ + dec_of(para_id as int) + ",\"timeout\":"@ + json_opt_num(
                timeout,
            ) + "}}"@
        },
        AssertionKindV::ParaBlockHeight { node_name, para_id, op, target_value, timeout } => {
            "{\"fn\":\"ParaBlockHeight\",\"args\":{\"node_name\":"@ + json_str(node_name)
                + ",\"para_id\":"@ + dec_of(para_id as int) + ",\"op\":"@ + json_op(op)
                + ",\"target_value\":"@ + dec_of(target_value as int) + ",\"timeout\":"@
                + json_opt_num(timeout) + "}}"@
        },
        AssertionKindV::ParaRuntimeUpgrade { node_name, para_id, file_or_uri, timeout } => {
            "{\"fn\":\"ParaRuntimeUpgrade\",\"args\":{\"node_name\":"@ + json_str(node_name)
                + ",\"para_id\":"@ + dec_of(para_id as int) + ",\"file_or_uri\":"@ + json_str(
                file_or_uri,
            ) + ",\"timeout\":"@ + json_opt_num(timeout) + "}}"@
        },
        AssertionKindV::ParaRuntimeDummyUpgrade { node_name, para_id, timeout } => {
            "{\"fn\":\"ParaRuntimeDummyUpgrade\",\"args\":{\"node_name\":"@ + json_str(node_name)
                + ",\"para_id\":"@ + dec_of(para_id as int) + ",\"timeout\":"@ + json_opt_num(
                timeout,
            ) + "}}"@
        },
        AssertionKindV::Histogram { node_name, metric_name, op, target_value, buckets, timeout } => {
            "{\"fn\":\"Histogram\",\"args\":{\"node_name\":"@ + json_str(node_name)
                + ",\"metric_name\":"@ + json_str(metric_name) + ",\"op\":"@ + json_op(op)
                + ",\"target_value\":"@ + dec_of(target_value as int) + ",\"buckets\":"@
                + json_buckets(buckets) + ",\"timeout\":"@ + json_opt_num(timeout) + "}}"@
        },
        AssertionKindV::Report { node_name, metric_name, op, target_value, timeout } => {
            "{\"fn\":\"Report\",\"args\":{\"node_name\":"@ + json_str(node_name)
                + ",\"metric_name\":"@ + json_str(metric_name) + ",\"op\":"@ + json_op(op)
                + ",\"target_value\":"@ + dec_of(target_value as int) + ",\"timeout\":"@
                + json_opt_num(timeout) + "}}"@
        },
        AssertionKindV::LogMatch { node_name, match_type, pattern, timeout } => {
            "{\"fn\":\"LogMatch\",\"args\":{\"node_name\":"@ + json_str(node_name)
                + ",\"match_type\":"@ + json_str(match_type) + ",\"pattern\":"@ + json_str(pattern)
                + ",\"timeout\":"@ + json_opt_num(timeout) + "}}"@
        },
        AssertionKindV::CountLogMatch { node_name, match_type, pattern, op, target_value, timeout } => {
            "{\"fn\":\"CountLogMatch\",\"args\":{\"node_name\":"@ + json_str(node_name)
                + ",\"match_type\":"@ + json_str(match_type) + ",\"pattern\":"@ + json_str(pattern)
                + ",\"op\":"@ + json_op(op) + ",\"target_value\":"@ + dec_of(target_value as int)
                + ",\"timeout\":"@ + json_opt_num(timeout) + "}}"@
        },
        AssertionKindV::Trace { node_name, span_id, pattern, timeout } => {
            "{\"fn\":\"Trace\",\"args\":{\"node_name\":"@ + json_str(node_name) + ",\"span_id\":"@
                + json_str(span_id) + ",\"pattern\":"@ + json_str(pattern) + ",\"timeout\":"@
                + json_opt_num(timeout) + "}}"@
        },
        AssertionKindV::SystemEvent { node_name, match_type, pattern, timeout } => {
            "{\"fn\":\"SystemEvent\",\"args\":{\"node_name\":"@ + json_str(node_name)
                + ",\"match_type\":"@ + json_str(match_type) + ",\"pattern\":"@ + json_str(pattern)
                + ",\"timeout\":"@ + json_opt_num(timeout) + "}}"@
        },
        AssertionKindV::CustomJs { node_name, file_path, custom_args, cmp, timeout } => {
            "{\"fn\":\"CustomJs\",\"args\":{\"node_name\":"@ + json_str(node_name)
                + ",\"file_path\":"@ + json_str(file_path) + ",\"custom_args\":"@ + json_opt_str(
                custom_args,
            ) + ",\"cmp\":"@ + json_cmp(cmp) + ",\"timeout\":"@ + json_opt_num(timeout) + "}}"@
        },
        AssertionKindV::CustomTs { node_name, file_path, custom_args, cmp, timeout } => {
            "{\"fn\":\"CustomTs\",\"args\":{\"node_name\":"@ + json_str(node_name)
                + ",\"file_path\":"@ + json_str(file_path) + ",\"custom_args\":"@ + json_opt_str(
                custom_args,
            ) + ",\"cmp\":"@ + json_cmp(cmp) + ",\"timeout\":"@ + json_opt_num(timeout) + "}}"@
        },
        AssertionKindV::CustomSh { node_name, file_path, custom_args, cmp, timeout } => {
            "{\"fn\":\"CustomSh\",\"args\":{\"node_name\":"@ + json_str(node_name)
                + ",\"file_path\":"@ + json_str(file_path) + ",\"custom_args\":"@ + json_opt_str(
                custom_args,
            ) + ",\"cmp\":"@ + json_cmp(cmp) + ",\"timeout\":"@ + json_opt_num(timeout) + "}}"@
        },
        AssertionKindV::Pause { node_name } => "{\"fn\":\"Pause\",\"args\":{\"node_name\":"@
            + json_str(node_name) + "}}"@,
        AssertionKindV::Resume { node_name } => "{\"fn\":\"Resume\",\"args\":{\"node_name\":"@
            + json_str(node_name) + "}}"@,
        AssertionKindV::Restart { node_name, after } => {
            "{\"fn\":\"Restart\",\"args\":{\"node_name\":"@ + json_str(node_name) + ",\"after\":"@
                + json_opt_num(after) + "}}"@
        },
        AssertionKindV::Sleep { seconds } => "{\"fn\":\"Sleep\",\"args\":{\"seconds\":"@
            + json_opt_num(seconds) + "}}"@,
    }
}

pub open spec fn json_assertion(a: AssertionV) -> Seq<char> {
    "{\"original_line\":"@ + json_str(a.original_line) + ",\"parsed\":"@ + json_kind(a.parsed)
        + "}"@
}

pub open spec fn json_assertion_items(al: Seq<AssertionV>) -> Seq<char>
    decreases al.len(),
{
    if al.len() == 0 {
        Seq::empty()
    } else if al.len() == 1 {
        json_assertion(al[0])
    } else {
        json_assertion_items(al.drop_last()) + ","@ + json_assertion(al.last())
    }
}

/// The whole document as one JSON object.
pub open spec fn json_doc(d: TestDefinitionV) -> Seq<char> {
    "{\"description\":"@ + json_opt_str(d.description) + ",\"network\":"@ + json_str(d.network)
        + ",\"creds\":"@ + json_str(d.creds) + ",\"assertions\":["@ + json_assertion_items(
        d.assertions,
    ) + "]}"@
}

fn dig_str(d: u64) -> (r: String)
    requires
        d < 10,
    ensures
        r@ == dig_lit(d as int),
{
    if d == 0 {
        String::from_str("0")
    } else if d == 1 {
        String::from_str("1")
    } else if d == 2 {
        String::from_str("2")
    } else if d == 3 {
        String::from_str("3")
    } else if d == 4 {
        String::from_str("4")
    } else if d == 5 {
        String::from_str("5")
    } else if d == 6 {
        String::from_str("6")
    } else if d == 7 {
        String::from_str("7")
    } else if d == 8 {
        String::from_str("8")
    } else {
        String::from_str("9")
    }
}

fn dec_str(n: u64) -> (r: String)
    ensures
        r@ == dec_of(n as int),
    decreases n,
{
    if n < 10 {
        dig_str(n)
    } else {
        let mut s = dec_str(n / 10);
        let d = dig_str(n % 10);
        s.append(d.as_str());
        s
    }
}

fn escaped_str(s: &String) -> (r: String)
    ensures
        r@ == json_escaped(s@),
{
    let st = s.as_str();
    let n = st.unicode_len();
    let mut out = String::new();
    let mut i: usize = 0;
    while i < n
        invariant
            i <= n,
            n == s@.len(),
            st@ == s@,
            out@ == json_escaped(s@.subrange(0, i as int)),
        decreases n - i,
    {
        let c = st.get_char(i);
        if c == '"' {
            out.append("\\\"");
        } else if c == '\\' {
            out.append("\\\\");
        } else if c == '\n' {
            out.append("\\n");
        } else if c == '\r' {
            out.append("\\r");
        } else if c == '\t' {
            out.append("\\t");
        } else {
            let piece = st.substring_char(i, i + 1);
            proof {
                assert(piece@ =~= seq![s@[i as int]]);
            }
            out.append(piece);
        }
        proof {
            assert(s@.subrange(0, i + 1).drop_last() =~= s@.subrange(0, i as int));
            assert(s@.subrange(0, i + 1).last() == s@[i as int]);
        }
        i = i + 1;
    }
    proof {
        assert(s@.subrange(0, n as int) =~= s@);
    }
    out
}

fn json_string(s: &String) -> (r: String)
    ensures
        r@ == json_str(s@),
{
    let mut out = String::from_str("\"");
    let e = escaped_str(s);
    out.append(e.as_str());
    out.append("\"");
    out
}

fn json_opt_num_str(t: &Option<u64>) -> (r: String)
    ensures
        r@ == json_opt_num(*t),
{
    match t {
        None => String::from_str("null"),
        Some(v) => dec_str(*v),
    }
}

fn json_opt_string(s: &Option<String>) -> (r: String)
    ensures
        r@ == json_opt_str(crate::ast::opt_string_view(*s)),
{
    match s {
        None => String::from_str("null"),
        Some(v) => json_string(v),
    }
}

fn json_op_str(op: Operator) -> (r: String)
    ensures
        r@ == json_op(op),
{
    match op {
        Operator::Equal => String::from_str("\"Equal\""),
        Operator::NotEqual => String::from_str("\"NotEqual\""),
        Operator::IsAbove => String::from_str("\"IsAbove\""),
        Operator::IsAtLeast => String::from_str("\"IsAtLeast\""),
        Operator::IsBelow => String::from_str("\"IsBelow\""),
        Operator::IsAtMost => String::from_str("\"IsAtMost\""),
    }
}

fn json_cmp_str(c: &Option<Comparison>) -> (r: String)
    ensures
        r@ == json_cmp(*c),
{
    match c {
        None => String::from_str("null"),
        Some(c) => {
            let mut out = String::from_str("{\"op\":");
            let o = json_op_str(c.op);
            out.append(o.as_str());
            out.append(",\"target_value\":");
            let v = dec_str(c.target_value);
            out.append(v.as_str());
            out.append("}");
            out
        },
    }
}

fn json_buckets_str(bs: &Vec<String>) -> (r: String)
    ensures
        r@ == json_buckets(bs.deep_view()),
{
    let mut out = String::from_str("[");
    let mut i: usize = 0;
    let ghost bv = bs.deep_view();
    let mut items = String::new();
    while i < bs.len()
        invariant
            i <= bs@.len(),
            bv == bs.deep_view(),
            bv.len() == bs@.len(),
            items@ == json_bucket_items(bv.subrange(0, i as int)),
        decreases bs@.len() - i,
    {
        if i > 0 {
            items.append(",");
        }
        let e = json_string(&bs[i]);
        items.append(e.as_str());
        proof {
            assert(bv.subrange(0, i + 1).drop_last() =~= bv.subrange(0, i as int));
            assert(bv.subrange(0, i + 1).last() == bv[i as int]);
            assert(bv[i as int] == bs@[i as int]@);
        }
        i = i + 1;
    }
    proof {
        assert(bv.subrange(0, bv.len() as int) =~= bv);
    }
    out.append(items.as_str());
    out.append("]");
    out
}

fn json_kind_str(k: &crate::ast::AssertionKind) -> (r: String)
    ensures
        r@ == json_kind(k@),
{
    match k {
        crate::ast::AssertionKind::IsUp { node_name, timeout } => {
            let mut out = String::from_str("{\"fn\":\"IsUp\",\"args\":{\"node_name\":");
            let p = json_string(node_name);
            out.append(p.as_str());
            out.append(",\"timeout\":");
            let p = json_opt_num_str(timeout);
            out.append(p.as_str());
            out.append("}}");
            out
        },
        crate::ast::AssertionKind::ParaIsRegistered { node_name, para_id, timeout } => {
            let mut out = String::from_str("{\"fn\":\"ParaIsRegistered\",\"args\":{\"node_name\":");
            let p = json_string(node_name);
            out.append(p.as_str());
            out.append(",\"para_id\":");
            let p = dec_str(*para_id as u64);
            out.append(p.as_str());
            out.append(",\"timeout\":");
            let p = json_opt_num_str(timeout);
            out.append(p.as_str());
            out.append("}}");
            out
        },
        crate::ast::AssertionKind::ParaBlockHeight { node_name, para_id, op, target_value, timeout } => {
            let mut out = String::from_str("{\"fn\":\"ParaBlockHeight\",\"args\":{\"node_name\":");
            let p = json_string(node_name);
            out.append(p.as_str());
            out.append(",\"para_id\":");
            let p = dec_str(*para_id as u64);
            out.append(p.as_str());
            out.append(",\"op\":");
            let p = json_op_str(*op);
            out.append(p.as_str());
            out.append(",\"target_value\":");
            let p = dec_str(*target_value);
            out.append(p.as_str());
            out.append(",\"timeout\":");
            let p = json_opt_num_str(timeout);
            out.append(p.as_str());
            out.append("}}");
            out
        },
        crate::ast::AssertionKind::ParaRuntimeUpgrade { node_name, para_id, file_or_uri, timeout } => {
            let mut out = String::from_str(
                "{\"fn\":\"ParaRuntimeUpgrade\",\"args\":{\"node_name\":",
            );
            let p = json_string(node_name);
            out.append(p.as_str());
            out.append(",\"para_id\":");
            let p = dec_str(*para_id as u64);
            out.append(p.as_str());
            out.append(",\"file_or_uri\":");
            let p = json_string(file_or_uri);
            out.append(p.as_str());
            out.append(",\"timeout\":");
            let p = json_opt_num_str(timeout);
            out.append(p.as_str());
            out.append("}}");
            out
        },
        crate::ast::AssertionKind::ParaRuntimeDummyUpgrade { node_name, para_id, timeout } => {
            let mut out = String::from_str(
                "{\"fn\":\"ParaRuntimeDummyUpgrade\",\"args\":{\"node_name\":",
            );
            let p = json_string(node_name);
            out.append(p.as_str());
            out.append(",\"para_id\":");
            let p = dec_str(*para_id as u64);
            out.append(p.as_str());
            out.append(",\"timeout\":");
            let p = json_opt_num_str(timeout);
            out.append(p.as_str());
            out.append("}}");
            out
        },
        crate::ast::AssertionKind::Histogram {
            node_name,
            metric_name,
            op,
            target_value,
            buckets,
            timeout,
        } => {
            let mut out = String::from_str("{\"fn\":\"Histogram\",\"args\":{\"node_name\":");
            let p = json_string(node_name);
            out.append(p.as_str());
            out.append(",\"metric_name\":");
            let p = json_string(metric_name);
            out.append(p.as_str());
            out.append(",\"op\":");
            let p = json_op_str(*op);
            out.append(p.as_str());
            out.append(",\"target_value\":");
            let p = dec_str(*target_value);
            out.append(p.as_str());
            out.append(",\"buckets\":");
            let p = json_buckets_str(buckets);
            out.append(p.as_str());
            out.append(",\"timeout\":");
            let p = json_opt_num_str(timeout);
            out.append(p.as_str());
            out.append("}}");
            out
        },
        crate::ast::AssertionKind::Report { node_name, metric_name, op, target_value, timeout } => {
            let mut out = String::from_str("{\"fn\":\"Report\",\"args\":{\"node_name\":");
            let p = json_string(node_name);
            out.append(p.as_str());
            out.append(",\"metric_name\":");
            let p = json_string(metric_name);
            out.append(p.as_str());
            out.append(",\"op\":");
            let p = json_op_str(*op);
            out.append(p.as_str());
            out.append(",\"target_value\":");
            let p = dec_str(*target_value);
            out.append(p.as_str());
            out.append(",\"timeout\":");
            let p = json_opt_num_str(timeout);
            out.append(p.as_str());
            out.append("}}");
            out
        },
        crate::ast::AssertionKind::LogMatch { node_name, match_type, pattern, timeout } => {
            let mut out = String::from_str("{\"fn\":\"LogMatch\",\"args\":{\"node_name\":");
            let p = json_string(node_name);
            out.append(p.as_str());
            out.append(",\"match_type\":");
            let p = json_string(match_type);
            out.append(p.as_str());
            out.append(",\"pattern\":");
            let p = json_string(pattern);
            out.append(p.as_str());
            out.append(",\"timeout\":");
            let p = json_opt_num_str(timeout);
            out.append(p.as_str());
            out.append("}}");
            out
        },
        crate::ast::AssertionKind::CountLogMatch {
            node_name,
            match_type,
            pattern,
            op,
            target_value,
            timeout,
        } => {
            let mut out = String::from_str("{\"fn\":\"CountLogMatch\",\"args\":{\"node_name\":");
            let p = json_string(node_name);
            out.append(p.as_str());
            out.append(",\"match_type\":");
            let p = json_string(match_type);
            out.append(p.as_str());
            out.append(",\"pattern\":");
            let p = json_string(pattern);
            out.append(p.as_str());
            out.append(",\"op\":");
            let p = json_op_str(*op);
            out.append(p.as_str());
            out.append(",\"target_value\":");
            let p = dec_str(*target_value);
            out.append(p.as_str());
            out.append(",\"timeout\":");
            let p = json_opt_num_str(timeout);
            out.append(p.as_str());
            out.append("}}");
            out
        },
        crate::ast::AssertionKind::Trace { node_name, span_id, pattern, timeout } => {
            let mut out = String::from_str("{\"fn\":\"Trace\",\"args\":{\"node_name\":");
            let p = json_string(node_name);
            out.append(p.as_str());
            out.append(",\"span_id\":");
            let p = json_string(span_id);
            out.append(p.as_str());
            out.append(",\"pattern\":");
            let p = json_string(pattern);
            out.append(p.as_str());
            out.append(",\"timeout\":");
            let p = json_opt_num_str(timeout);
            out.append(p.as_str());
            out.append("}}");
            out
        },
        crate::ast::AssertionKind::SystemEvent { node_name, match_type, pattern, timeout } => {
            let mut out = String::from_str("{\"fn\":\"SystemEvent\",\"args\":{\"node_name\":");
            let p = json_string(node_name);
            out.append(p.as_str());
            out.append(",\"match_type\":");
            let p = json_string(match_type);
            out.append(p.as_str());
            out.append(",\"pattern\":");
            let p = json_string(pattern);
            out.append(p.as_str());
            out.append(",\"timeout\":");
            let p = json_opt_num_str(timeout);
            out.append(p.as_str());
            out.append("}}");
            out
        },
        crate::ast::AssertionKind::CustomJs { node_name, file_path, custom_args, cmp, timeout } => {
            let mut out = String::from_str("{\"fn\":\"CustomJs\",\"args\":{\"node_name\":");
            let p = json_string(node_name);
            out.append(p.as_str());
            out.append(",\"file_path\":");
            let p = json_string(file_path);
            out.append(p.as_str());
            out.append(",\"custom_args\":");
            let p = json_opt_string(custom_args);
            out.append(p.as_str());
            out.append(",\"cmp\":");
            let p = json_cmp_str(cmp);
            out.append(p.as_str());
            out.append(",\"timeout\":");
            let p = json_opt_num_str(timeout);
            out.append(p.as_str());
            out.append("}}");
            out
        },
        crate::ast::AssertionKind::CustomTs { node_name, file_path, custom_args, cmp, timeout } => {
            let mut out = String::from_str("{\"fn\":\"CustomTs\",\"args\":{\"node_name\":");
            let p = json_string(node_name);
            out.append(p.as_str());
            out.append(",\"file_path\":");
            let p = json_string(file_path);
            out.append(p.as_str());
            out.append(",\"custom_args\":");
            let p = json_opt_string(custom_args);
            out.append(p.as_str());
            out.append(",\"cmp\":");
            let p = json_cmp_str(cmp);
            out.append(p.as_str());
            out.append(",\"timeout\":");
            let p = json_opt_num_str(timeout);
            out.append(p.as_str());
            out.append("}}");
            out
        },
        crate::ast::AssertionKind::CustomSh { node_name, file_path, custom_args, cmp, timeout } => {
            let mut out = String::from_str("{\"fn\":\"CustomSh\",\"args\":{\"node_name\":");
            let p = json_string(node_name);
            out.append(p.as_str());
            out.append(",\"file_path\":");
            let p = json_string(file_path);
            out.append(p.as_str());
            out.append(",\"custom_args\":");
            let p = json_opt_string(custom_args);
            out.append(p.as_str());
            out.append(",\"cmp\":");
            let p = json_cmp_str(cmp);
            out.append(p.as_str());
            out.append(",\"timeout\":");
            let p = json_opt_num_str(timeout);
            out.append(p.as_str());
            out.append("}}");
            out
        },
        crate::ast::AssertionKind::Pause { node_name } => {
            let mut out = String::from_str("{\"fn\":\"Pause\",\"args\":{\"node_name\":");
            let p = json_string(node_name);
            out.append(p.as_str());
            out.append("}}");
            out
        },
        crate::ast::AssertionKind::Resume { node_name } => {
            let mut out = String::from_str("{\"fn\":\"Resume\",\"args\":{\"node_name\":");
            let p = json_string(node_name);
            out.append(p.as_str());
            out.append("}}");
            out
        },
        crate::ast::AssertionKind::Restart { node_name, after } => {
            let mut out = String::from_str("{\"fn\":\"Restart\",\"args\":{\"node_name\":");
            let p = json_string(node_name);
            out.append(p.as_str());
            out.append(",\"after\":");
            let p = json_opt_num_str(after);
            out.append(p.as_str());
            out.append("}}");
            out
        },
        crate::ast::AssertionKind::Sleep { seconds } => {
            let mut out = String::from_str("{\"fn\":\"Sleep\",\"args\":{\"seconds\":");
            let p = json_opt_num_str(seconds);
            out.append(p.as_str());
            out.append("}}");
            out
        },
    }
}

fn json_assertion_str(a: &Assertion) -> (r: String)
    ensures
        r@ == json_assertion(a@),
{
    let mut out = String::from_str("{\"original_line\":");
    let p = json_string(&a.original_line);
    out.append(p.as_str());
    out.append(",\"parsed\":");
    let p = json_kind_str(&a.parsed);
    out.append(p.as_str());
    out.append("}");
    out
}

/// Render a parsed document as its JSON representation.
pub fn to_json(d: &TestDefinition) -> (r: String)
    ensures
        r@ == json_doc(d@),
{
    let mut out = String::from_str("{\"description\":");
    let p = json_opt_string(&d.description);
    out.append(p.as_str());
    out.append(",\"network\":");
    let p = json_string(&d.network);
    out.append(p.as_str());
    out.append(",\"creds\":");
    let p = json_string(&d.creds);
    out.append(p.as_str());
    out.append(",\"assertions\":[");
    let ghost av = seq_view(d.assertions@);
    let mut items = String::new();
    let mut i: usize = 0;
    while i < d.assertions.len()
        invariant
            i <= d.assertions@.len(),
            av == seq_view(d.assertions@),
            av.len() == d.assertions@.len(),
            items@ == json_assertion_items(av.subrange(0, i as int)),
        decreases d.assertions@.len() - i,
    {
        if i > 0 {
            items.append(",");
        }
        let e = json_assertion_str(&d.assertions[i]);
        items.append(e.as_str());
        proof {
            assert(av.subrange(0, i + 1).drop_last() =~= av.subrange(0, i as int));
            assert(av.subrange(0, i + 1).last() == av[i as int]);
            assert(av[i as int] == d.assertions@[i as int]@);
        }
        i = i + 1;
    }
    proof {
        assert(av.subrange(0, av.len() as int) =~= av);
    }
    out.append(items.as_str());
    out.append("]}");
    out
}

/// Parse a test-definition file and render the document as JSON; an
/// empty input or a failed parse is reported as an error string.
pub fn parse_to_json(text: &str) -> (r: Result<String, String>)
    ensures
        match r {
            Ok(j) => text@.len() > 0 && (sp_parse(text@) matches Ok(d) && j@ == json_doc(d)),
            Err(m) => (text@.len() == 0 && m@ == "error"@) || (sp_parse(text@) matches Err(e) && m@
                == sp_message(e)),
        },
{
    if text.is_empty() {
        return Err(String::from_str("error"));
    }
    match parse(text) {
        Ok(d) => Ok(to_json(&d)),
        Err(e) => Err(e.message()),
    }
}

} // verus!
