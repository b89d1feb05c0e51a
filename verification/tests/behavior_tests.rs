use zndsl::parse;
use zndsl::Assertion;
use zndsl::AssertionKind;
use zndsl::Comparison;
use zndsl::NamespaceCI;
use zndsl::Operator;
use zndsl::ParserError;

#[test]
fn missing_network_is_missing_fields() {
    let result = parse("Creds: config\nalice: is up");
    match result {
        Err(ParserError::MissingFields(m)) => assert_eq!(m, "Network"),
        other => panic!("expected MissingFields, got {:?}", other),
    }
}

#[test]
fn missing_creds_is_missing_fields() {
    let result = parse("Network: ./a.toml\nalice: is up");
    match result {
        Err(ParserError::MissingFields(m)) => assert_eq!(m, "Creds"),
        other => panic!("expected MissingFields, got {:?}", other),
    }
}

#[test]
fn empty_file_is_missing_fields() {
    let result = parse("");
    match result {
        Err(ParserError::MissingFields(m)) => assert_eq!(m, "Network, Creds"),
        other => panic!("expected MissingFields, got {:?}", other),
    }
}

#[test]
fn headers_only_gives_empty_assertions() {
    let result = parse("Description: Some test\nNetwork: ./a.toml\nCreds: config").unwrap();
    assert_eq!(result.description, Some(String::from("Some test")));
    assert_eq!(result.network, "./a.toml");
    assert_eq!(result.creds, "config");
    assert!(result.assertions.is_empty());
}

#[test]
fn creds_without_value_defaults_to_config() {
    let result = parse("Network: ./a.toml\nCreds:\nalice: is up").unwrap();
    assert_eq!(result.creds, "config");
}

#[test]
fn misspelled_keyword_is_invalid_rule() {
    let result = parse("Network: ./a.toml\nCreds: config\nalice: is upp");
    match result {
        Err(ParserError::InvalidRule(l)) => assert_eq!(l, "alice: is upp"),
        other => panic!("expected InvalidRule, got {:?}", other),
    }
}

#[test]
fn para_id_out_of_range_is_parse_error() {
    let result = parse("Network: ./a.toml\nCreds: config\nalice: parachain 70000 is registered");
    match result {
        Err(ParserError::ParseError(t)) => assert_eq!(t, "70000"),
        other => panic!("expected ParseError, got {:?}", other),
    }
}

#[test]
fn oversized_timeout_is_parse_error() {
    let result = parse(
        "Network: ./a.toml\nCreds: config\nalice: is up within 99999999999999999999999 secs",
    );
    match result {
        Err(ParserError::ParseError(t)) => assert_eq!(t, "99999999999999999999999"),
        other => panic!("expected ParseError, got {:?}", other),
    }
}

#[test]
fn duplicate_script_clause_is_unreachable_rule() {
    let result = parse(
        "Network: ./a.toml\nCreds: config\nalice: js-script ./x.js with \"a\" with \"b\"",
    );
    assert!(matches!(result, Err(ParserError::UnreachableRule(_))));
}

#[test]
fn header_after_statement_is_rejected() {
    let result = parse("Network: ./a.toml\nCreds: config\nalice: is up\nNetwork: ./b.toml");
    assert!(matches!(result, Err(ParserError::ParseError(_))));
}

#[test]
fn operator_phrases_map_each_to_their_operator() {
    let phrases = [
        ("is", Operator::Equal),
        ("is not", Operator::NotEqual),
        ("is above", Operator::IsAbove),
        ("is at least", Operator::IsAtLeast),
        ("is below", Operator::IsBelow),
        ("is at most", Operator::IsAtMost),
    ];
    for (phrase, expected_op) in phrases {
        let text = format!("Network: ./a.toml\nCreds: config\nalice: reports m {} 5", phrase);
        let result = parse(&text).unwrap();
        match &result.assertions[0].parsed {
            AssertionKind::Report { op, target_value, .. } => {
                assert_eq!(*op, expected_op);
                assert_eq!(*target_value, 5);
            },
            other => panic!("expected Report, got {:?}", other),
        }
    }
}

#[test]
fn report_plain_metric_parse_ok() {
    let line = "eve: reports some_metric is 0 within 15 seconds";
    let result = parse(&format!("Network: ./a.toml\nCreds: config\n{}", line)).unwrap();
    assert_eq!(
        result.assertions[0].parsed,
        AssertionKind::Report {
            node_name: String::from("eve"),
            metric_name: String::from("some_metric"),
            op: Operator::Equal,
            target_value: 0,
            timeout: Some(15),
        }
    );
}

#[test]
fn histogram_bare_integer_defaults_to_equal() {
    let line = r#"alice: reports histogram m has 10 samples in buckets ["1", "2"]"#;
    let result = parse(&format!("Network: ./a.toml\nCreds: config\n{}", line)).unwrap();
    match &result.assertions[0].parsed {
        AssertionKind::Histogram { op, target_value, timeout, .. } => {
            assert_eq!(*op, Operator::Equal);
            assert_eq!(*target_value, 10);
            assert_eq!(*timeout, None);
        },
        other => panic!("expected Histogram, got {:?}", other),
    }
}

#[test]
fn count_bare_integer_defaults_to_equal() {
    let line = r#"alice: count of log lines containing "x" 3"#;
    let result = parse(&format!("Network: ./a.toml\nCreds: config\n{}", line)).unwrap();
    match &result.assertions[0].parsed {
        AssertionKind::CountLogMatch { op, target_value, .. } => {
            assert_eq!(*op, Operator::Equal);
            assert_eq!(*target_value, 3);
        },
        other => panic!("expected CountLogMatch, got {:?}", other),
    }
}

#[test]
fn para_block_height_parse_ok() {
    let line = "alice: parachain 100 block height is at least 10 within 200 secs";
    let result = parse(&format!("Network: ./a.toml\nCreds: config\n{}", line)).unwrap();
    assert_eq!(
        result.assertions[0].parsed,
        AssertionKind::ParaBlockHeight {
            node_name: String::from("alice"),
            para_id: 100,
            op: Operator::IsAtLeast,
            target_value: 10,
            timeout: Some(200),
        }
    );
}

#[test]
fn pause_resume_sleep_parse_ok() {
    let text = "Network: ./a.toml\nCreds: config\nalice: pause\nbob: resume\nsleep 30 seconds";
    let result = parse(text).unwrap();
    assert_eq!(result.assertions.len(), 3);
    assert_eq!(
        result.assertions[0].parsed,
        AssertionKind::Pause { node_name: String::from("alice") }
    );
    assert_eq!(
        result.assertions[1].parsed,
        AssertionKind::Resume { node_name: String::from("bob") }
    );
    assert_eq!(result.assertions[2].parsed, AssertionKind::Sleep { seconds: Some(30) });
}

#[test]
fn sleep_without_unit_parse_ok() {
    let result = parse("Network: ./a.toml\nCreds: config\nsleep 5").unwrap();
    assert_eq!(result.assertions[0].parsed, AssertionKind::Sleep { seconds: Some(5) });
}

#[test]
fn restart_without_delay_has_no_after() {
    let result = parse("Network: ./a.toml\nCreds: config\nalice: restart").unwrap();
    assert_eq!(
        result.assertions[0].parsed,
        AssertionKind::Restart { node_name: String::from("alice"), after: None }
    );
}

#[test]
fn ts_script_with_comparison_parse_ok() {
    let line = "alice: ts-script ./check.ts is at most 4 within 30 secs";
    let result = parse(&format!("Network: ./a.toml\nCreds: config\n{}", line)).unwrap();
    assert_eq!(
        result.assertions[0].parsed,
        AssertionKind::CustomTs {
            node_name: String::from("alice"),
            file_path: String::from("./check.ts"),
            custom_args: None,
            cmp: Some(Comparison { op: Operator::IsAtMost, target_value: 4 }),
            timeout: Some(30),
        }
    );
}

#[test]
fn ordering_and_original_lines_are_preserved() {
    let text = "Network: ./a.toml\nCreds: config\n# a comment\nalice: is up   \n\nbob: pause\nsleep 1";
    let result = parse(text).unwrap();
    assert_eq!(result.assertions.len(), 3);
    assert_eq!(result.assertions[0].original_line, "alice: is up");
    assert_eq!(result.assertions[1].original_line, "bob: pause");
    assert_eq!(result.assertions[2].original_line, "sleep 1");
    assert!(matches!(result.assertions[0].parsed, AssertionKind::IsUp { .. }));
    assert!(matches!(result.assertions[1].parsed, AssertionKind::Pause { .. }));
    assert!(matches!(result.assertions[2].parsed, AssertionKind::Sleep { .. }));
}

#[test]
fn timeout_absent_is_none_not_zero() {
    let with_zero = parse("Network: ./a.toml\nCreds: config\nalice: is up within 0 secs").unwrap();
    let without = parse("Network: ./a.toml\nCreds: config\nalice: is up").unwrap();
    assert_eq!(
        with_zero.assertions[0].parsed,
        AssertionKind::IsUp { node_name: String::from("alice"), timeout: Some(0) }
    );
    assert_eq!(
        without.assertions[0].parsed,
        AssertionKind::IsUp { node_name: String::from("alice"), timeout: None }
    );
}

#[test]
fn error_messages_render() {
    let e = parse("Creds: config\nalice: is up").unwrap_err();
    assert_eq!(e.message(), "Missing fields: Network");
    let e2 = parse("Network: ./a.toml\nCreds: config\nalice: is upp").unwrap_err();
    assert_eq!(e2.message(), "Invalid matching rule: alice: is upp");
}

#[test]
fn crlf_line_endings_parse_like_lf() {
    let result = parse("Network: ./a.toml\r\nCreds: config\r\nalice: is up\r\n").unwrap();
    assert_eq!(result.network, "./a.toml");
    assert_eq!(result.assertions.len(), 1);
    assert_eq!(result.assertions[0].original_line, "alice: is up");
}

#[test]
fn leading_whitespace_is_kept_in_original_line() {
    let result = parse("Network: ./a.toml\nCreds: config\n  alice: is up").unwrap();
    assert_eq!(result.assertions[0].original_line, "  alice: is up");
    assert_eq!(
        result.assertions[0].parsed,
        AssertionKind::IsUp { node_name: String::from("alice"), timeout: None }
    );
}

#[test]
fn repeated_network_header_is_rejected() {
    let result = parse("Network: ./a.toml\nNetwork: ./b.toml\nCreds: config\nalice: is up");
    assert!(matches!(result, Err(ParserError::ParseError(_))));
}

#[test]
fn namespace_ci_new_keeps_fields() {
    let ns = NamespaceCI::new(
        String::from("zombie-1234"),
        String::from("567"),
        String::from("some-repo"),
    );
    assert_eq!(ns.ns_name().as_str(), "zombie-1234");
    assert_eq!(ns.job_id().as_str(), "567");
    assert_eq!(ns.repo().as_str(), "some-repo");
}
