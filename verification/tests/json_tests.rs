use zndsl::parse;
use zndsl::parse_to_json;
use zndsl::to_json;

#[test]
fn json_of_simple_document() {
    let doc = parse("Network: ./a.toml\nCreds: config\nalice: is up within 5 secs").unwrap();
    let expected = "{\"description\":null,\"network\":\"./a.toml\",\"creds\":\"config\",\"assertions\":[{\"original_line\":\"alice: is up within 5 secs\",\"parsed\":{\"fn\":\"IsUp\",\"args\":{\"node_name\":\"alice\",\"timeout\":5}}}]}";
    assert_eq!(to_json(&doc), expected);
}

#[test]
fn json_escapes_quotes_in_strings() {
    let doc = parse(
        "Network: ./a.toml\nCreds: config\neve: reports m{v=\"x\"} is 0",
    )
    .unwrap();
    let rendered = to_json(&doc);
    assert!(rendered.contains("\"metric_name\":\"m{v=\\\"x\\\"}\""));
    assert!(rendered.contains("\"op\":\"Equal\""));
    assert!(rendered.contains("\"target_value\":0"));
    assert!(rendered.contains("\"timeout\":null"));
}

#[test]
fn json_renders_buckets_and_large_numbers() {
    let line = "alice: reports histogram m has at most 18446744073709551615 samples in buckets [\"0.1\", \"2\"]";
    let doc = parse(&format!("Network: ./a.toml\nCreds: config\n{}", line)).unwrap();
    let rendered = to_json(&doc);
    assert!(rendered.contains("\"buckets\":[\"0.1\",\"2\"]"));
    assert!(rendered.contains("\"target_value\":18446744073709551615"));
    assert!(rendered.contains("\"op\":\"IsAtMost\""));
}

#[test]
fn json_renders_description_and_sleep() {
    let doc = parse("Description: demo\nNetwork: ./a.toml\nCreds: config\nsleep 7").unwrap();
    let rendered = to_json(&doc);
    assert!(rendered.starts_with("{\"description\":\"demo\","));
    assert!(rendered.contains("{\"fn\":\"Sleep\",\"args\":{\"seconds\":7}}"));
}

#[test]
fn parse_to_json_empty_input_is_error() {
    assert_eq!(parse_to_json(""), Err(String::from("error")));
}

#[test]
fn parse_to_json_reports_parse_failures() {
    let result = parse_to_json("Network: ./a.toml\nCreds: config\nalice: is upp");
    assert_eq!(result, Err(String::from("Invalid matching rule: alice: is upp")));
}

#[test]
fn parse_to_json_round_trips_success() {
    let text = "Network: ./a.toml\nCreds: config\nbob: pause";
    let doc = parse(text).unwrap();
    assert_eq!(parse_to_json(text), Ok(to_json(&doc)));
}
