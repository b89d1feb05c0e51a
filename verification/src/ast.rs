//! The typed document that a successful parse produces.
//!
//! Every exec type has a mathematical view (`...V`) over `Seq<char>`,
//! so that contracts can speak about the parsed document abstractly.

use vstd::prelude::*;

verus! {

/// The six comparison operators a statement may name, mapped one-to-one
/// from the six operator phrases of the language ("is", "is not",
/// "is above", "is at least", "is below", "is at most").
#[derive(Clone, Copy, Debug, PartialEq, Eq)]
pub enum Operator {
    Equal,
    NotEqual,
    IsAbove,
    IsAtLeast,
    IsBelow,
    IsAtMost,
}

/// An operator together with its numeric threshold, as used by the
/// metric, block-height and log-count checks.
#[derive(Clone, Copy, Debug, PartialEq, Eq)]
pub struct Comparison {
    pub op: Operator,
    pub target_value: u64,
}

/// The closed set of statement kinds. Exactly one variant is active per
/// assertion; the tag is the statement keyword, the fields its arguments.
///
/// Timeouts and the restart delay are plain seconds; `None` means the
/// source had no such clause ("no deadline"), never zero.
#[derive(Debug, PartialEq)]
pub enum AssertionKind {
    IsUp { node_name: String, timeout: Option<u64> },
    ParaIsRegistered { node_name: String, para_id: u16, timeout: Option<u64> },
    ParaBlockHeight {
        node_name: String,
        para_id: u16,
        op: Operator,
        target_value: u64,
        timeout: Option<u64>,
    },
    ParaRuntimeUpgrade {
        node_name: String,
        para_id: u16,
        file_or_uri: String,
        timeout: Option<u64>,
    },
    ParaRuntimeDummyUpgrade { node_name: String, para_id: u16, timeout: Option<u64> },
    Histogram {
        node_name: String,
        metric_name: String,
        op: Operator,
        target_value: u64,
        buckets: Vec<String>,
        timeout: Option<u64>,
    },
    Report {
        node_name: String,
        metric_name: String,
        op: Operator,
        target_value: u64,
        timeout: Option<u64>,
    },
    LogMatch { node_name: String, match_type: String, pattern: String, timeout: Option<u64> },
    CountLogMatch {
        node_name: String,
        match_type: String,
        pattern: String,
        op: Operator,
        target_value: u64,
        timeout: Option<u64>,
    },
    Trace { node_name: String, span_id: String, pattern: String, timeout: Option<u64> },
    SystemEvent { node_name: String, match_type: String, pattern: String, timeout: Option<u64> },
    CustomJs {
        node_name: String,
        file_path: String,
        custom_args: Option<String>,
        cmp: Option<Comparison>,
        timeout: Option<u64>,
    },
    CustomTs {
        node_name: String,
        file_path: String,
        custom_args: Option<String>,
        cmp: Option<Comparison>,
        timeout: Option<u64>,
    },
    CustomSh {
        node_name: String,
        file_path: String,
        custom_args: Option<String>,
        cmp: Option<Comparison>,
        timeout: Option<u64>,
    },
    Pause { node_name: String },
    Resume { node_name: String },
    Restart { node_name: String, after: Option<u64> },
    Sleep { seconds: Option<u64> },
}

/// One parsed statement line, paired with its verbatim source text
/// (the line with trailing whitespace removed, nothing else changed).
#[derive(Debug, PartialEq)]
pub struct Assertion {
    pub original_line: String,
    pub parsed: AssertionKind,
}

/// The root document: header fields plus the assertions in source order.
#[derive(Debug, PartialEq)]
pub struct TestDefinition {
    pub description: Option<String>,
    pub network: String,
    pub creds: String,
    pub assertions: Vec<Assertion>,
}

/// Mathematical counterpart of [`AssertionKind`]: strings become
/// sequences of characters.
pub enum AssertionKindV {
    IsUp { node_name: Seq<char>, timeout: Option<u64> },
    ParaIsRegistered { node_name: Seq<char>, para_id: u16, timeout: Option<u64> },
    ParaBlockHeight {
        node_name: Seq<char>,
        para_id: u16,
        op: Operator,
        target_value: u64,
        timeout: Option<u64>,
    },
    ParaRuntimeUpgrade {
        node_name: Seq<char>,
        para_id: u16,
        file_or_uri: Seq<char>,
        timeout: Option<u64>,
    },
    ParaRuntimeDummyUpgrade { node_name: Seq<char>, para_id: u16, timeout: Option<u64> },
    Histogram {
        node_name: Seq<char>,
        metric_name: Seq<char>,
        op: Operator,
        target_value: u64,
        buckets: Seq<Seq<char>>,
        timeout: Option<u64>,
    },
    Report {
        node_name: Seq<char>,
        metric_name: Seq<char>,
        op: Operator,
        target_value: u64,
        timeout: Option<u64>,
    },
    LogMatch {
        node_name: Seq<char>,
        match_type: Seq<char>,
        pattern: Seq<char>,
        timeout: Option<u64>,
    },
    CountLogMatch {
        node_name: Seq<char>,
        match_type: Seq<char>,
        pattern: Seq<char>,
        op: Operator,
        target_value: u64,
        timeout: Option<u64>,
    },
    Trace { node_name: Seq<char>, span_id: Seq<char>, pattern: Seq<char>, timeout: Option<u64> },
    SystemEvent {
        node_name: Seq<char>,
        match_type: Seq<char>,
        pattern: Seq<char>,
        timeout: Option<u64>,
    },
    CustomJs {
        node_name: Seq<char>,
        file_path: Seq<char>,
        custom_args: Option<Seq<char>>,
        cmp: Option<Comparison>,
        timeout: Option<u64>,
    },
    CustomTs {
        node_name: Seq<char>,
        file_path: Seq<char>,
        custom_args: Option<Seq<char>>,
        cmp: Option<Comparison>,
        timeout: Option<u64>,
    },
    CustomSh {
        node_name: Seq<char>,
        file_path: Seq<char>,
        custom_args: Option<Seq<char>>,
        cmp: Option<Comparison>,
        timeout: Option<u64>,
    },
    Pause { node_name: Seq<char> },
    Resume { node_name: Seq<char> },
    Restart { node_name: Seq<char>, after: Option<u64> },
    Sleep { seconds: Option<u64> },
}

/// Mathematical counterpart of [`Assertion`].
pub struct AssertionV {
    pub original_line: Seq<char>,
    pub parsed: AssertionKindV,
}

/// Mathematical counterpart of [`TestDefinition`].
pub struct TestDefinitionV {
    pub description: Option<Seq<char>>,
    pub network: Seq<char>,
    pub creds: Seq<char>,
    pub assertions: Seq<AssertionV>,
}

pub open spec fn opt_string_view(o: Option<String>) -> Option<Seq<char>> {
    match o {
        Some(s) => Some(s@),
        None => None,
    }
}

/// The views of a sequence of assertions, in order.
pub open spec fn seq_view(s: Seq<Assertion>) -> Seq<AssertionV> {
    Seq::new(s.len(), |i: int| s[i]@)
}

impl View for AssertionKind {
    type V = AssertionKindV;

    open spec fn view(&self) -> AssertionKindV {
        match self {
            AssertionKind::IsUp { node_name, timeout } => AssertionKindV::IsUp {
                node_name: node_name@,
                timeout: *timeout,
            },
            AssertionKind::ParaIsRegistered { node_name, para_id, timeout } => {
                AssertionKindV::ParaIsRegistered {
                    node_name: node_name@,
                    para_id: *para_id,
                    timeout: *timeout,
                }
            },
            AssertionKind::ParaBlockHeight { node_name, para_id, op, target_value, timeout } => {
                AssertionKindV::ParaBlockHeight {
                    node_name: node_name@,
                    para_id: *para_id,
                    op: *op,
                    target_value: *target_value,
                    timeout: *timeout,
                }
            },
            AssertionKind::ParaRuntimeUpgrade { node_name, para_id, file_or_uri, timeout } => {
                AssertionKindV::ParaRuntimeUpgrade {
                    node_name: node_name@,
                    para_id: *para_id,
                    file_or_uri: file_or_uri@,
                    timeout: *timeout,
                }
            },
            AssertionKind::ParaRuntimeDummyUpgrade { node_name, para_id, timeout } => {
                AssertionKindV::ParaRuntimeDummyUpgrade {
                    node_name: node_name@,
                    para_id: *para_id,
                    timeout: *timeout,
                }
            },
            AssertionKind::Histogram {
                node_name,
                metric_name,
                op,
                target_value,
                buckets,
                timeout,
            } => AssertionKindV::Histogram {
                node_name: node_name@,
                metric_name: metric_name@,
                op: *op,
                target_value: *target_value,
                buckets: buckets.deep_view(),
                timeout: *timeout,
            },
            AssertionKind::Report { node_name, metric_name, op, target_value, timeout } => {
                AssertionKindV::Report {
                    node_name: node_name@,
                    metric_name: metric_name@,
                    op: *op,
                    target_value: *target_value,
                    timeout: *timeout,
                }
            },
            AssertionKind::LogMatch { node_name, match_type, pattern, timeout } => {
                AssertionKindV::LogMatch {
                    node_name: node_name@,
                    match_type: match_type@,
                    pattern: pattern@,
                    timeout: *timeout,
                }
            },
            AssertionKind::CountLogMatch {
                node_name,
                match_type,
                pattern,
                op,
                target_value,
                timeout,
            } => AssertionKindV::CountLogMatch {
                node_name: node_name@,
                match_type: match_type@,
                pattern: pattern@,
                op: *op,
                target_value: *target_value,
                timeout: *timeout,
            },
            AssertionKind::Trace { node_name, span_id, pattern, timeout } => {
                AssertionKindV::Trace {
                    node_name: node_name@,
                    span_id: span_id@,
                    pattern: pattern@,
                    timeout: *timeout,
                }
            },
            AssertionKind::SystemEvent { node_name, match_type, pattern, timeout } => {
                AssertionKindV::SystemEvent {
                    node_name: node_name@,
                    match_type: match_type@,
                    pattern: pattern@,
                    timeout: *timeout,
                }
            },
            AssertionKind::CustomJs { node_name, file_path, custom_args, cmp, timeout } => {
                AssertionKindV::CustomJs {
                    node_name: node_name@,
                    file_path: file_path@,
                    custom_args: opt_string_view(*custom_args),
                    cmp: *cmp,
                    timeout: *timeout,
                }
            },
            AssertionKind::CustomTs { node_name, file_path, custom_args, cmp, timeout } => {
                AssertionKindV::CustomTs {
                    node_name: node_name@,
                    file_path: file_path@,
                    custom_args: opt_string_view(*custom_args),
                    cmp: *cmp,
                    timeout: *timeout,
                }
            },
            AssertionKind::CustomSh { node_name, file_path, custom_args, cmp, timeout } => {
                AssertionKindV::CustomSh {
                    node_name: node_name@,
                    file_path: file_path@,
                    custom_args: opt_string_view(*custom_args),
                    cmp: *cmp,
                    timeout: *timeout,
                }
            },
            AssertionKind::Pause { node_name } => AssertionKindV::Pause { node_name: node_name@ },
            AssertionKind::Resume { node_name } => AssertionKindV::Resume {
                node_name: node_name@,
            },
            AssertionKind::Restart { node_name, after } => AssertionKindV::Restart {
                node_name: node_name@,
                after: *after,
            },
            AssertionKind::Sleep { seconds } => AssertionKindV::Sleep { seconds: *seconds },
        }
    }
}

impl View for Assertion {
    type V = AssertionV;

    open spec fn view(&self) -> AssertionV {
        AssertionV { original_line: self.original_line@, parsed: self.parsed@ }
    }
}

impl View for TestDefinition {
    type V = TestDefinitionV;

    open spec fn view(&self) -> TestDefinitionV {
        TestDefinitionV {
            description: opt_string_view(self.description),
            network: self.network@,
            creds: self.creds@,
            assertions: seq_view(self.assertions@),
        }
    }
}

} // verus!
