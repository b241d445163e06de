use rust_agent::json_repair::{
    balance_brackets, extract_first_json_object, strip_bom, strip_code_fence,
    strip_trailing_commas, parse_with_repair, RepairError, RepairStage,
};
use rust_agent::structured::{normalize_json_content, parse_structured_content};

fn value(text: &str) -> serde_json::Value {
    serde_json::from_str(text).expect("should be valid JSON")
}


fn parse(input: &str) -> serde_json::Value {
    parse_with_repair(input).expect("should parse").value
}

#[test]
fn parses_clean_json_without_any_repair() {
    let result = parse_with_repair(r#"{"name":"a","tags":["x"]}"#).unwrap();
    assert!(result.stages_applied.is_empty());
    assert_eq!(result.value["name"], "a");
}

#[test]
fn strips_json_code_fence() {
    let raw = "```json\n{\"name\":\"a\",\"tags\":[\"x\"]}\n```";
    assert_eq!(parse(raw)["name"], "a");
}

#[test]
fn strips_bare_code_fence() {
    let raw = "```\n{\"name\":\"a\",\"tags\":[\"x\"]}\n```";
    assert_eq!(parse(raw)["name"], "a");
}

#[test]
fn strips_ts_language_fence() {
    let raw = "```ts\n{\"name\":\"a\",\"tags\":[]}\n```";
    assert_eq!(parse(raw)["tags"], value("[]"));
}

#[test]
fn extracts_json_from_leading_preface() {
    let raw = "Sure, here's the JSON you requested:\n{\"name\":\"a\",\"tags\":[]}";
    assert_eq!(parse(raw)["name"], "a");
}

#[test]
fn extracts_json_from_trailing_explanation() {
    let raw = "{\"name\":\"a\",\"tags\":[]}\nHope this helps!";
    assert_eq!(parse(raw)["name"], "a");
}

#[test]
fn extracts_json_from_leading_and_trailing_text() {
    let raw = "Here you go:\n{\"name\":\"a\",\"tags\":[\"x\"]}\nDone.";
    assert_eq!(parse(raw)["tags"], value(r#"["x"]"#));
}

#[test]
fn removes_trailing_comma_in_object() {
    let raw = r#"{"name":"a","tags":["x"],}"#;
    assert_eq!(parse(raw)["name"], "a");
}

#[test]
fn removes_trailing_comma_in_array() {
    let raw = r#"{"name":"a","tags":["x","y",]}"#;
    assert_eq!(parse(raw)["tags"], value(r#"["x","y"]"#));
}

#[test]
fn balances_missing_closing_curly() {
    let raw = r#"{"name":"a","tags":["x"]"#;
    assert_eq!(parse(raw)["name"], "a");
}

#[test]
fn balances_missing_closing_bracket_and_curly() {
    let raw = r#"{"name":"a","tags":["x","y"]"#;
    assert_eq!(parse(raw)["tags"], value(r#"["x","y"]"#));
}

#[test]
fn does_not_silently_rescue_unterminated_string() {
    let raw = r#"{"name":"a","tags":["x"#;
    assert!(parse_with_repair(raw).is_err(), "unterminated string should not be silently rescued");
}

#[test]
fn strips_bom_prefix() {
    let raw = "\u{feff}{\"name\":\"a\",\"tags\":[]}";
    assert_eq!(parse(raw)["name"], "a");
}

#[test]
fn combines_fence_and_trailing_comma() {
    let raw = "```json\n{\"name\":\"a\",\"tags\":[\"x\",]}\n```";
    assert_eq!(parse(raw)["tags"], value(r#"["x"]"#));
}

#[test]
fn does_not_break_on_string_with_braces_inside() {
    let raw = r#"{"name":"has } brace","tags":[]}"#;
    assert_eq!(parse(raw)["name"], "has } brace");
}

#[test]
fn does_not_break_on_string_with_comma_before_close() {
    let raw = r#"{"name":"end,]","tags":[]}"#;
    assert_eq!(parse(raw)["name"], "end,]");
}

#[test]
fn returns_error_when_completely_non_json() {
    let err = parse_with_repair("Sorry, I cannot help with that.").expect_err("plain prose should fail");
    let msg = err.message();
    assert!(msg.contains("failed to parse"));
}

#[test]
fn records_stages_applied_on_success() {
    let raw = "```json\n{\"name\":\"a\",\"tags\":[\"x\",]}\n```";
    let outcome = parse_with_repair(raw).unwrap();
    assert!(outcome.stages_applied.contains(&RepairStage::FenceStripped));
    assert!(outcome.stages_applied.contains(&RepairStage::TrailingCommaRemoved));
}

#[test]
fn repair_error_keeps_snippets_and_stages() {
    let raw = "x".repeat(250);
    let err = parse_with_repair(&raw).expect_err("not JSON");
    assert!(err.stages_applied.is_empty());
    assert_eq!(err.source_snippet.chars().count(), 200);
    assert_eq!(err.last_attempt_snippet, "x".repeat(200));
    assert!(err.parse_error.contains("expected"));
}

#[test]
fn repair_stops_at_the_first_text_that_parses() {
    let outcome = parse_with_repair("```json\n{\"a\":1}\n```").unwrap();
    assert_eq!(outcome.stages_applied, vec![RepairStage::FenceStripped]);
    assert_eq!(outcome.value["a"], 1);
}

#[test]
fn fence_stage_strips_json_code_fence() {
    let raw = "```json\n{\"name\":\"a\",\"tags\":[\"x\"]}\n```";
    assert_eq!(strip_code_fence(raw), "{\"name\":\"a\",\"tags\":[\"x\"]}");
}

#[test]
fn fence_stage_strips_bare_code_fence() {
    let raw = "```\n{\"name\":\"a\",\"tags\":[\"x\"]}\n```";
    assert_eq!(value(&strip_code_fence(raw))["name"], "a");
}

#[test]
fn fence_stage_strips_ts_language_fence() {
    let raw = "```ts\n{\"name\":\"a\",\"tags\":[]}\n```";
    assert_eq!(value(&strip_code_fence(raw))["tags"], value(r#"[]"#));
}

#[test]
fn fence_stage_keeps_text_without_fence() {
    assert_eq!(strip_code_fence("  {\"a\":1}  "), "  {\"a\":1}  ");
}

#[test]
fn extract_stage_drops_leading_preface() {
    let raw = "Sure, here's the JSON you requested:\n{\"name\":\"a\",\"tags\":[]}";
    assert_eq!(extract_first_json_object(raw), "{\"name\":\"a\",\"tags\":[]}");
}

#[test]
fn extract_stage_drops_trailing_explanation() {
    let raw = "{\"name\":\"a\",\"tags\":[]}\nHope this helps!";
    assert_eq!(extract_first_json_object(raw), "{\"name\":\"a\",\"tags\":[]}");
}

#[test]
fn extract_stage_drops_leading_and_trailing_text() {
    let raw = "Here you go:\n{\"name\":\"a\",\"tags\":[\"x\"]}\nDone.";
    assert_eq!(value(&extract_first_json_object(raw))["tags"], value(r#"["x"]"#));
}

#[test]
fn extract_stage_ignores_braces_inside_strings() {
    let raw = r#"{"name":"has } brace","tags":[]} trailing"#;
    assert_eq!(extract_first_json_object(raw), r#"{"name":"has } brace","tags":[]}"#);
}

#[test]
fn extract_stage_keeps_text_without_brackets() {
    assert_eq!(extract_first_json_object("no json here"), "no json here");
}

#[test]
fn comma_stage_removes_trailing_comma_in_object() {
    let raw = r#"{"name":"a","tags":["x"],}"#;
    assert_eq!(strip_trailing_commas(raw), r#"{"name":"a","tags":["x"]}"#);
}

#[test]
fn comma_stage_removes_trailing_comma_in_array() {
    let raw = r#"{"name":"a","tags":["x","y",]}"#;
    assert_eq!(value(&strip_trailing_commas(raw))["tags"], value(r#"["x", "y"]"#));
}

#[test]
fn comma_stage_keeps_commas_inside_strings() {
    let raw = r#"{"name":"end,]","tags":[]}"#;
    assert_eq!(strip_trailing_commas(raw), raw);
}

#[test]
fn comma_stage_removes_comma_before_whitespace_and_closer() {
    assert_eq!(strip_trailing_commas("[1, 2 ,\n ]"), "[1, 2 \n ]");
}

#[test]
fn balance_stage_closes_missing_curly() {
    let raw = r#"{"name":"a","tags":["x"]"#;
    assert_eq!(balance_brackets(raw), r#"{"name":"a","tags":["x"]}"#);
}

#[test]
fn balance_stage_closes_missing_bracket_and_curly() {
    let raw = r#"{"name":"a","tags":["x","y""#;
    assert_eq!(value(&balance_brackets(raw))["tags"], value(r#"["x", "y"]"#));
}

#[test]
fn balance_stage_leaves_unterminated_string() {
    let raw = r#"{"name":"a","tags":["x"#;
    assert_eq!(balance_brackets(raw), raw);
}

#[test]
fn bom_stage_strips_prefix() {
    let raw = "\u{feff}{\"name\":\"a\",\"tags\":[]}";
    assert_eq!(strip_bom(raw), "{\"name\":\"a\",\"tags\":[]}");
    assert_eq!(strip_bom("{}"), "{}");
}

#[test]
fn stages_combine_fence_and_trailing_comma() {
    let raw = "```json\n{\"name\":\"a\",\"tags\":[\"x\",]}\n```";
    let repaired = strip_trailing_commas(&extract_first_json_object(&strip_code_fence(&strip_bom(raw))));
    assert_eq!(value(&repaired)["tags"], value(r#"["x"]"#));
}

#[test]
fn repair_error_message_lists_stages() {
    let error = RepairError {
        stages_applied: vec![RepairStage::FenceStripped, RepairStage::TrailingCommaRemoved],
        source_snippet: "x".to_string(),
        last_attempt_snippet: "y".to_string(),
        parse_error: "expected value".to_string(),
    };
    assert_eq!(
        error.message(),
        "failed to parse LLM JSON after 2 repair stage(s) [fence_stripped,trailing_comma_removed]: expected value"
    );
    assert_eq!(RepairStage::BracketBalanced.name(), "bracket_balanced");
}

#[test]
fn repair_error_message_without_stages() {
    let error = RepairError {
        stages_applied: vec![],
        source_snippet: String::new(),
        last_attempt_snippet: String::new(),
        parse_error: "oops".to_string(),
    };
    assert!(error.message().contains("failed to parse"));
    assert_eq!(error.message(), "failed to parse LLM JSON after 0 repair stage(s) []: oops");
}

#[test]
fn returns_error_for_invalid_json() {
    let error = parse_structured_content("error json").expect_err("expected json error");

    assert!(error.contains("expected"));
}

#[test]
fn parses_json_wrapped_in_markdown_fence() {
    let output = parse_structured_content(
        r#"```json
            {"summary":"Todo app","tags":["todo"]}
            "#,
    )
    .expect("structured chat failed");

    assert_eq!(output["summary"], "Todo app");
    assert_eq!(output["tags"], value(r#"["todo"]"#));
}

#[test]
fn parses_plain_json_response() {
    let output = parse_structured_content(r#"{"summary":"Todo app","tags":["todo","app"]}"#)
        .expect("should parse");
    assert_eq!(output["tags"], value(r#"["todo", "app"]"#));
}

#[test]
fn normalizes_fenced_content() {
    assert_eq!(normalize_json_content("  ```json\n{\"a\":1}\n```  "), "{\"a\":1}");
    assert_eq!(normalize_json_content("```\n{\"a\":1}```"), "{\"a\":1}");
    assert_eq!(normalize_json_content("  {\"a\":1} "), "{\"a\":1}");
}
