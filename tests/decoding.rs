use challenge_coach::decode::{completion_content, parse_evaluation, parse_spec};
use challenge_coach::model::{LlmError, Rubric};

fn strings(items: &[&str]) -> Vec<String> {
    items.iter().map(|s| s.to_string()).collect()
}

fn defaults() -> Vec<String> {
    strings(&["Explain the concept clearly.", "Provide a concrete example."])
}

#[test]
fn spec_reads_requirements_and_partial_rubric() {
    let r = parse_spec(r#"{"requirements": ["a","b"], "rubric": {"min_sentences": 2}}"#);
    assert_eq!(r.requirements, strings(&["a", "b"]));
    assert_eq!(r.rubric.min_sentences, Some(2));
    assert_eq!(r.rubric.require_example, None);
    assert_eq!(r.rubric.key_points, None);
}

#[test]
fn spec_of_empty_object_takes_defaults() {
    let r = parse_spec("{}");
    assert_eq!(r.requirements, defaults());
    assert_eq!(
        r.rubric,
        Rubric { min_sentences: None, require_example: None, key_points: None }
    );
}

#[test]
fn spec_drops_non_string_requirements() {
    let r = parse_spec(r#"{"requirements": [1,2,"ok"]}"#);
    assert_eq!(r.requirements, strings(&["ok"]));
}

#[test]
fn spec_without_string_requirements_takes_defaults() {
    assert_eq!(parse_spec(r#"{"requirements": [1,2]}"#).requirements, defaults());
    assert_eq!(parse_spec(r#"{"requirements": []}"#).requirements, defaults());
    assert_eq!(parse_spec(r#"{"requirements": "a"}"#).requirements, defaults());
}

#[test]
fn spec_of_text_that_is_not_json_takes_defaults() {
    let r = parse_spec("Sure! Here are your requirements");
    assert_eq!(r.requirements, defaults());
    assert_eq!(r.rubric.min_sentences, None);
}

#[test]
fn spec_rubric_fields_of_wrong_kind_stay_unset() {
    let r = parse_spec(
        r#"{"rubric": {"min_sentences": -1, "require_example": "yes", "key_points": "x"}}"#,
    );
    assert_eq!(
        r.rubric,
        Rubric { min_sentences: None, require_example: None, key_points: None }
    );
    let r = parse_spec(r#"{"rubric": {"min_sentences": 2.5}}"#);
    assert_eq!(r.rubric.min_sentences, None);
}

#[test]
fn spec_rubric_reads_every_field() {
    let r = parse_spec(
        r#"{"requirements":["x"],"rubric":{"min_sentences":4,"require_example":false,"key_points":["p",7,"q"]}}"#,
    );
    assert_eq!(r.requirements, strings(&["x"]));
    assert_eq!(
        r.rubric,
        Rubric {
            min_sentences: Some(4),
            require_example: Some(false),
            key_points: Some(strings(&["p", "q"])),
        }
    );
}

#[test]
fn spec_empty_key_points_stay_present() {
    let r = parse_spec(r#"{"rubric":{"key_points":[]}}"#);
    assert_eq!(r.rubric.key_points, Some(vec![]));
}

#[test]
fn evaluation_of_text_that_is_not_json_fails() {
    assert_eq!(parse_evaluation("not json at all"), Err(LlmError::MalformedEvaluation));
}

#[test]
fn evaluation_with_wrong_kinds_fails_closed() {
    let r = parse_evaluation(r#"{"passed":"yes"}"#).unwrap();
    assert!(!r.passed);
    assert_eq!(r.feedback, "No feedback");
}

#[test]
fn evaluation_reads_verdict_and_feedback() {
    let r = parse_evaluation(r#"{"passed":true,"feedback":"Good answer"}"#).unwrap();
    assert!(r.passed);
    assert_eq!(r.feedback, "Good answer");
}

#[test]
fn evaluation_of_array_takes_defaults() {
    let r = parse_evaluation("[true]").unwrap();
    assert!(!r.passed);
    assert_eq!(r.feedback, "No feedback");
}

#[test]
fn completion_content_of_first_choice() {
    let body = r#"{"choices":[{"message":{"role":"assistant","content":"{\"passed\":true}"}},{"message":{"content":"second"}}]}"#;
    assert_eq!(completion_content(200, body), Ok("{\"passed\":true}".to_string()));
}

#[test]
fn completion_without_content_is_empty() {
    assert_eq!(completion_content(200, r#"{"choices":[]}"#), Err(LlmError::EmptyResponse));
    assert_eq!(
        completion_content(200, r#"{"choices":[{"message":{"content":null}}]}"#),
        Err(LlmError::EmptyResponse)
    );
    assert_eq!(completion_content(200, "<html>"), Err(LlmError::EmptyResponse));
}

#[test]
fn completion_with_error_status_keeps_body() {
    assert_eq!(
        completion_content(500, "{\"choices\":[]}"),
        Err(LlmError::Http { status: 500, body: "{\"choices\":[]}".to_string() })
    );
}
