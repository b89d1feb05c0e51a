use zndsl::parse;
use zndsl::Assertion;
use zndsl::AssertionKind;
use zndsl::TestDefinition;
use zndsl::Operator;

const NETWORK: &str = "Network: ./a.toml";
const CREDS: &str = "Creds: config";

fn doc_with(line: &str, parsed: AssertionKind) -> TestDefinition {
    TestDefinition {
        description: None,
        network: String::from("./a.toml"),
        creds: String::from("config"),
        assertions: vec![Assertion { original_line: String::from(line), parsed }],
    }
}

fn input_with(line: &str) -> String {
    format!("{}\n{}\n{}", NETWORK, CREDS, line)
}

#[test]
fn restart_parse_ok() {
    let line = "alice: restart after 60 seconds";
    let expected = doc_with(
        line,
        AssertionKind::Restart { node_name: String::from("alice"), after: Some(60) },
    );
    let result = parse(&input_with(line)).unwrap();
    assert_eq!(result, expected);
}

#[test]
fn is_up_parse_ok() {
    let line = "alice: is up within 5 secs";
    let expected = doc_with(
        line,
        AssertionKind::IsUp { node_name: String::from("alice"), timeout: Some(5) },
    );
    let result = parse(&input_with(line)).unwrap();
    assert_eq!(result, expected);
}

#[test]
fn is_up_without_timeout_parse_ok() {
    let line = "alice: is up";
    let expected = doc_with(
        line,
        AssertionKind::IsUp { node_name: String::from("alice"), timeout: None },
    );
    let result = parse(&input_with(line)).unwrap();
    assert_eq!(result, expected);
}

#[test]
fn para_is_registered_parse_ok() {
    let line = "alice: parachain 100 is registered within 225 seconds";
    let expected = doc_with(
        line,
        AssertionKind::ParaIsRegistered {
            node_name: String::from("alice"),
            para_id: 100,
            timeout: Some(225),
        },
    );
    let result = parse(&input_with(line)).unwrap();
    assert_eq!(result, expected);
}

#[test]
fn histogram_parse_ok() {
    let line = r#"alice: reports histogram polkadot_pvf_preparation_time has at least 1 samples in buckets ["0.1", "0.5", "1", "2", "3", "10"] within 10 seconds"#;
    let expected = doc_with(
        line,
        AssertionKind::Histogram {
            node_name: String::from("alice"),
            metric_name: String::from("polkadot_pvf_preparation_time"),
            op: Operator::IsAtLeast,
            target_value: 1,
            buckets: vec![
                String::from("0.1"),
                String::from("0.5"),
                String::from("1"),
                String::from("2"),
                String::from("3"),
                String::from("10"),
            ],
            timeout: Some(10),
        },
    );
    let result = parse(&input_with(line)).unwrap();
    assert_eq!(result, expected);
}

#[test]
fn report_parse_ok() {
    let line = r#"eve: reports parachain_candidate_dispute_concluded{validity="invalid"} is 0 within 15 seconds"#;
    let expected = doc_with(
        line,
        AssertionKind::Report {
            node_name: String::from("eve"),
            metric_name: String::from(r#"parachain_candidate_dispute_concluded{validity="invalid"}"#),
            op: Operator::Equal,
            target_value: 0,
            timeout: Some(15),
        },
    );
    let result = parse(&input_with(line)).unwrap();
    assert_eq!(result, expected);
}

#[test]
fn para_dummy_upgrade_parse_ok() {
    let line = "alice: parachain 100 perform dummy upgrade within 200 seconds";
    let expected = doc_with(
        line,
        AssertionKind::ParaRuntimeDummyUpgrade {
            node_name: String::from("alice"),
            para_id: 100,
            timeout: Some(200),
        },
    );
    let result = parse(&input_with(line)).unwrap();
    assert_eq!(result, expected);
}

#[test]
fn para_upgrade_parse_ok() {
    let line = "alice: parachain 100 perform upgrade with ./some.wasm.compact within 200 seconds";
    let expected = doc_with(
        line,
        AssertionKind::ParaRuntimeUpgrade {
            node_name: String::from("alice"),
            para_id: 100,
            file_or_uri: String::from("./some.wasm.compact"),
            timeout: Some(200),
        },
    );
    let result = parse(&input_with(line)).unwrap();
    assert_eq!(result, expected);
}

#[test]
fn log_match_parse_ok() {
    let line = r#"alice: log line contains "Imported #12" within 20 seconds"#;
    let expected = doc_with(
        line,
        AssertionKind::LogMatch {
            node_name: String::from("alice"),
            match_type: String::from("regex"),
            pattern: String::from("Imported #12"),
            timeout: Some(20),
        },
    );
    let result = parse(&input_with(line)).unwrap();
    assert_eq!(result, expected);
}

#[test]
fn log_match_parse_glob_ok() {
    let line = r#"alice: log line contains glob "Imported #12" within 20 seconds"#;
    let expected = doc_with(
        line,
        AssertionKind::LogMatch {
            node_name: String::from("alice"),
            match_type: String::from("glob"),
            pattern: String::from("Imported #12"),
            timeout: Some(20),
        },
    );
    let result = parse(&input_with(line)).unwrap();
    assert_eq!(result, expected);
}

#[test]
fn log_match_glob_parse_ok() {
    let line = r#"alice: log line matches glob "*rted #1*" within 10 seconds"#;
    let expected = doc_with(
        line,
        AssertionKind::LogMatch {
            node_name: String::from("alice"),
            match_type: String::from("glob"),
            pattern: String::from("*rted #1*"),
            timeout: Some(10),
        },
    );
    let result = parse(&input_with(line)).unwrap();
    assert_eq!(result, expected);
}

#[test]
fn count_log_match_equal_parse_ok() {
    let line = r#"alice: count of log lines containing "Imported #12" is 0 within 20 seconds"#;
    let expected = doc_with(
        line,
        AssertionKind::CountLogMatch {
            node_name: String::from("alice"),
            match_type: String::from("regex"),
            pattern: String::from("Imported #12"),
            op: Operator::Equal,
            target_value: 0,
            timeout: Some(20),
        },
    );
    let result = parse(&input_with(line)).unwrap();
    assert_eq!(result, expected);
}

#[test]
fn count_log_match_is_at_least_parse_ok() {
    let line = r#"alice: count of log lines containing "Imported #12" is at least 12 within 20 seconds"#;
    let expected = doc_with(
        line,
        AssertionKind::CountLogMatch {
            node_name: String::from("alice"),
            match_type: String::from("regex"),
            pattern: String::from("Imported #12"),
            op: Operator::IsAtLeast,
            target_value: 12,
            timeout: Some(20),
        },
    );
    let result = parse(&input_with(line)).unwrap();
    assert_eq!(result, expected);
}

#[test]
fn count_log_match_glob_equal_parse_ok() {
    let line = r#"alice: count of log lines containing glob "Imported #12" is 10 within 20 seconds"#;
    let expected = doc_with(
        line,
        AssertionKind::CountLogMatch {
            node_name: String::from("alice"),
            match_type: String::from("glob"),
            pattern: String::from("Imported #12"),
            op: Operator::Equal,
            target_value: 10,
            timeout: Some(20),
        },
    );
    let result = parse(&input_with(line)).unwrap();
    assert_eq!(result, expected);
}

#[test]
fn count_log_match_glob_is_at_least_parse_ok() {
    let line = r#"alice: count of log lines matching glob "*rted #1*" is at least 5 within 10 seconds"#;
    let expected = doc_with(
        line,
        AssertionKind::CountLogMatch {
            node_name: String::from("alice"),
            match_type: String::from("glob"),
            pattern: String::from("*rted #1*"),
            op: Operator::IsAtLeast,
            target_value: 5,
            timeout: Some(10),
        },
    );
    let result = parse(&input_with(line)).unwrap();
    assert_eq!(result, expected);
}

#[test]
fn trace_parse_ok() {
    let line = r#"alice: trace with traceID 94c1501a78a0d83c498cc92deec264d9 contains ["answer-chunk-request", "answer-chunk-request"]"#;
    let expected = doc_with(
        line,
        AssertionKind::Trace {
            node_name: String::from("alice"),
            span_id: String::from("94c1501a78a0d83c498cc92deec264d9"),
            pattern: String::from(r#"["answer-chunk-request", "answer-chunk-request"]"#),
            timeout: None,
        },
    );
    let result = parse(&input_with(line)).unwrap();
    assert_eq!(result, expected);
}

#[test]
fn system_event_parse_ok() {
    let line = r#"alice: system event contains "A candidate was included" within 20 seconds"#;
    let expected = doc_with(
        line,
        AssertionKind::SystemEvent {
            node_name: String::from("alice"),
            match_type: String::from("regex"),
            pattern: String::from("A candidate was included"),
            timeout: Some(20),
        },
    );
    let result = parse(&input_with(line)).unwrap();
    assert_eq!(result, expected);
}

#[test]
fn custom_js_parse_ok() {
    let line = "alice: js-script ./0008-custom.js within 200 seconds";
    let expected = doc_with(
        line,
        AssertionKind::CustomJs {
            node_name: String::from("alice"),
            file_path: String::from("./0008-custom.js"),
            custom_args: None,
            cmp: None,
            timeout: Some(200),
        },
    );
    let result = parse(&input_with(line)).unwrap();
    assert_eq!(result, expected);
}

#[test]
fn custom_js_with_args_parse_ok() {
    let line = r#"alice: js-script ./0008-custom.js with "dave,2000-1,eve" within 200 seconds"#;
    let expected = doc_with(
        line,
        AssertionKind::CustomJs {
            node_name: String::from("alice"),
            file_path: String::from("./0008-custom.js"),
            custom_args: Some(String::from("dave,2000-1,eve")),
            cmp: None,
            timeout: Some(200),
        },
    );
    let result = parse(&input_with(line)).unwrap();
    assert_eq!(result, expected);
}

#[test]
fn custom_sh_parse_ok() {
    let line = "alice: run ./0008-custom.sh within 200 seconds";
    let expected = doc_with(
        line,
        AssertionKind::CustomSh {
            node_name: String::from("alice"),
            file_path: String::from("./0008-custom.sh"),
            custom_args: None,
            cmp: None,
            timeout: Some(200),
        },
    );
    let result = parse(&input_with(line)).unwrap();
    assert_eq!(result, expected);
}

#[test]
fn is_up_parse_err() {
    let result = parse("alice: is upp");
    assert!(result.is_err());
}

#[test]
fn parse_header_ok() {
    let result = parse(&input_with("alice: is up"));
    assert!(result.is_ok());
}

#[test]
fn parse_header_with_description_ok() {
    let result = parse(&format!("Description: Some\n{}\n{}\nalice: is up", NETWORK, CREDS));
    assert!(result.is_ok());
}

#[test]
fn parse_header_err() {
    let result = parse(&format!("{}\n{}\nalice: is up", CREDS, NETWORK));
    assert!(result.is_err());
}
