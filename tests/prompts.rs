use challenge_coach::commands::{generate_challenge, mark_node_in_progress, ping};
use challenge_coach::model::{AnswerEvaluationRequest, ChallengeSpecRequest, Rubric};
use challenge_coach::prompt::{
    assemble_spec_payload, build_evaluation_prompt, build_spec_prompt, rubric_summary,
    EVALUATION_SYSTEM_PROMPT, SPEC_SYSTEM_PROMPT,
};

fn spec_request(level: Option<&str>) -> ChallengeSpecRequest {
    ChallengeSpecRequest {
        title: "Closures".to_string(),
        tasks: vec!["Capture a variable".to_string(), "Return a closure".to_string()],
        level: level.map(|s| s.to_string()),
        model: None,
    }
}

#[test]
fn spec_prompt_defaults_level() {
    let (system, user) = build_spec_prompt(&spec_request(None));
    assert_eq!(system, SPEC_SYSTEM_PROMPT);
    assert_eq!(
        user,
        r#"{"level":"beginner","tasks":["Capture a variable","Return a closure"],"title":"Closures"}"#
    );
}

#[test]
fn spec_prompt_keeps_given_level_and_escapes() {
    let mut req = spec_request(Some("advanced"));
    req.tasks = vec!["Say \"hi\"\n".to_string()];
    let (_, user) = build_spec_prompt(&req);
    assert_eq!(user, r#"{"level":"advanced","tasks":["Say \"hi\"\n"],"title":"Closures"}"#);
}

#[test]
fn spec_prompt_without_tasks() {
    let mut req = spec_request(None);
    req.tasks = vec![];
    let (_, user) = build_spec_prompt(&req);
    assert_eq!(user, r#"{"level":"beginner","tasks":[],"title":"Closures"}"#);
}

#[test]
fn payload_assembled_from_json_texts() {
    let tasks = vec!["1".to_string(), "true".to_string()];
    assert_eq!(
        assemble_spec_payload("\"T\"", "\"L\"", &tasks),
        r#"{"level":"L","tasks":[1,true],"title":"T"}"#
    );
}

#[test]
fn rubric_summary_lists_present_fields() {
    let full = Rubric {
        min_sentences: Some(12),
        require_example: Some(false),
        key_points: Some(vec!["ownership".to_string(), "borrowing".to_string()]),
    };
    assert_eq!(
        rubric_summary(&full),
        vec![
            "Minimum sentences: 12".to_string(),
            "Require example: false".to_string(),
            "Key points to hit: ownership, borrowing".to_string(),
        ]
    );
    let sparse = Rubric { min_sentences: None, require_example: Some(true), key_points: Some(vec![]) };
    assert_eq!(rubric_summary(&sparse), vec!["Require example: true".to_string()]);
}

#[test]
fn evaluation_prompt_embeds_everything() {
    let req = AnswerEvaluationRequest {
        node_id: "n1".to_string(),
        title: "Traits".to_string(),
        answer: "A trait is an interface.".to_string(),
        model: None,
        rubric: None,
    };
    let rubric = Rubric { min_sentences: Some(3), require_example: Some(true), key_points: None };
    let (system, user) = build_evaluation_prompt(&req, &rubric);
    assert_eq!(system, EVALUATION_SYSTEM_PROMPT);
    assert_eq!(
        user,
        "Evaluate the answer for node 'n1' (Traits).\nRubric:\nMinimum sentences: 3\nRequire example: true\n\nAnswer:\nA trait is an interface."
    );
}

#[test]
fn small_commands() {
    assert_eq!(ping(), "pong");
    assert_eq!(
        generate_challenge("beginner", "loops"),
        "Daily Micro-Challenges for level=beginner topic=loops:\n1) Explain the core concept in 3–6 sentences.\n2) Write a 10–20 line code snippet demonstrating it.\n3) Create a test prompt to validate understanding."
    );
    assert_eq!(mark_node_in_progress("n7"), "marked n7 in progress (placeholder)");
}
