use challenge_coach::model::{
    AnswerEvaluationRequest, ChallengeSpecRequest, Credential, HttpReply, LlmError, Rubric,
};
use challenge_coach::orchestrate::{
    finish_evaluation, finish_spec_generation, plan_evaluation, plan_spec_generation,
};

fn spec_request() -> ChallengeSpecRequest {
    ChallengeSpecRequest {
        title: "Iterators".to_string(),
        tasks: vec!["Use map".to_string()],
        level: None,
        model: None,
    }
}

fn evaluation_request(rubric: Option<Rubric>) -> AnswerEvaluationRequest {
    AnswerEvaluationRequest {
        node_id: "it-1".to_string(),
        title: "Iterators".to_string(),
        answer: "map transforms each item.".to_string(),
        model: Some("gpt-4o".to_string()),
        rubric,
    }
}

fn reply(status: u16, body: &str) -> HttpReply {
    HttpReply::Received { status, body: body.to_string() }
}

#[test]
fn spec_plan_uses_default_level_and_model() {
    let plan = plan_spec_generation(Some("sk-test"), &spec_request()).unwrap();
    assert_eq!(plan.model, "gpt-4o-mini");
    assert!(plan.user.contains(r#""level":"beginner""#));
    assert_eq!(plan.temperature_percent, 30);
    assert!(plan.force_json);
    assert_eq!(plan.credential.secret(), "sk-test");
}

#[test]
fn evaluation_plan_without_rubric_uses_default_rubric() {
    let plan = plan_evaluation(Some("sk-test"), &evaluation_request(None)).unwrap();
    assert!(plan.user.contains("Minimum sentences: 3"));
    assert!(plan.user.contains("Require example: true"));
    assert!(!plan.user.contains("Key points"));
    assert_eq!(plan.model, "gpt-4o");
    assert_eq!(plan.temperature_percent, 20);
}

#[test]
fn evaluation_plan_with_rubric_uses_it() {
    let rubric = Rubric {
        min_sentences: None,
        require_example: Some(false),
        key_points: Some(vec!["laziness".to_string()]),
    };
    let plan = plan_evaluation(Some("k"), &evaluation_request(Some(rubric))).unwrap();
    assert!(plan.user.contains("Rubric:\nRequire example: false\nKey points to hit: laziness\n\n"));
    assert!(!plan.user.contains("Minimum sentences"));
}

#[test]
fn both_operations_need_a_key() {
    assert_eq!(plan_spec_generation(None, &spec_request()).err(), Some(LlmError::MissingCredential));
    assert_eq!(
        plan_evaluation(None, &evaluation_request(None)).err(),
        Some(LlmError::MissingCredential)
    );
    assert_eq!(
        plan_spec_generation(Some(" \n\t "), &spec_request()).err(),
        Some(LlmError::MissingCredential)
    );
    assert_eq!(
        plan_evaluation(Some(""), &evaluation_request(None)).err(),
        Some(LlmError::MissingCredential)
    );
    assert_eq!(LlmError::MissingCredential.message(), "OpenAI API key not set in Settings");
}

#[test]
fn stored_key_is_trimmed() {
    let c = Credential::from_stored("  sk-abc\n").unwrap();
    assert_eq!(c.secret(), "sk-abc");
    assert!(Credential::from_stored("\u{3000}\r\n").is_none());
}

#[test]
fn unauthorized_reply_reports_status_and_body() {
    let body = r#"{"error":{"message":"Incorrect API key"}}"#;
    let err = finish_spec_generation(&reply(401, body)).unwrap_err();
    assert_eq!(err, LlmError::Http { status: 401, body: body.to_string() });
    let message = err.message();
    assert_eq!(message, format!("OpenAI error: 401 {}", body));
    let err = finish_evaluation(&reply(401, "not json")).unwrap_err();
    assert_eq!(err.message(), "OpenAI error: 401 not json");
}

#[test]
fn transport_failure_is_carried_on() {
    let err = finish_evaluation(&HttpReply::Failed("connection refused".to_string())).unwrap_err();
    assert_eq!(err, LlmError::Transport("connection refused".to_string()));
    assert_eq!(err.message(), "connection refused");
}

#[test]
fn spec_generation_reads_completion() {
    let body = r#"{"choices":[{"message":{"content":"{\"requirements\":[\"r1\",\"r2\",\"r3\"],\"rubric\":{\"min_sentences\":5}}"}}]}"#;
    let r = finish_spec_generation(&reply(200, body)).unwrap();
    assert_eq!(r.requirements, vec!["r1".to_string(), "r2".to_string(), "r3".to_string()]);
    assert_eq!(r.rubric.min_sentences, Some(5));
}

#[test]
fn spec_generation_without_content_fails() {
    assert_eq!(
        finish_spec_generation(&reply(200, r#"{"choices":[]}"#)).err(),
        Some(LlmError::EmptyResponse)
    );
    assert_eq!(LlmError::EmptyResponse.message(), "No content");
}

#[test]
fn evaluation_reads_completion() {
    let body = r#"{"choices":[{"message":{"content":"{\"passed\":true,\"feedback\":\"Well done\"}"}}]}"#;
    let r = finish_evaluation(&reply(200, body)).unwrap();
    assert!(r.passed);
    assert_eq!(r.feedback, "Well done");
}

#[test]
fn evaluation_of_prose_completion_fails() {
    let body = r#"{"choices":[{"message":{"content":"You passed!"}}]}"#;
    assert_eq!(finish_evaluation(&reply(200, body)).err(), Some(LlmError::MalformedEvaluation));
}

#[test]
fn error_message_of_other_status() {
    let err = LlmError::Http { status: 503, body: String::new() };
    assert_eq!(err.message(), "OpenAI error: 503 ");
}
