//! The two operations, each split in two around the one remote call: `plan_*`
//! decides what to send (or fails before any call), `finish_*` turns what came
//! back into the result.
use vstd::prelude::*;
use crate::decode::{
    body_content, completion_content, evaluation_of_json, is_success, parse_evaluation,
    parse_spec, spec_of_content,
};
use crate::json::parsed_json;
use crate::model::{
    error_message, stored_credential, AnswerEvaluationRequest, AnswerEvaluationResult,
    ChallengeSpecRequest, ChallengeSpecResult, ChatRequest, Credential, HttpReply, LlmError,
    Rubric,
};
use crate::prompt::{
    build_evaluation_prompt, build_spec_prompt, effective_rubric, evaluation_user_message,
    spec_user_message, text_or, DEFAULT_MODEL, EVALUATION_SYSTEM_PROMPT, SPEC_SYSTEM_PROMPT,
};
use crate::text::decimal;

verus! {

/// Sampling temperature, in hundredths, for generating a challenge.
pub const SPEC_TEMPERATURE_PERCENT: u32 = 30;

/// Sampling temperature, in hundredths, for grading an answer.
pub const EVALUATION_TEMPERATURE_PERCENT: u32 = 20;

/// The view of an optional string slice.
pub open spec fn opt_str_text(o: Option<&str>) -> Option<Seq<char>> {
    match o {
        Some(s) => Some(s@),
        None => None,
    }
}

/// `r` is a chat request with these parts, made with `key` and asking for a
/// JSON object.
pub open spec fn is_chat_request(
    r: ChatRequest,
    key: Seq<char>,
    model: Seq<char>,
    system: Seq<char>,
    user: Seq<char>,
    temperature_percent: u32,
) -> bool {
    &&& r.credential@ == key
    &&& r.model@ == model
    &&& r.system@ == system
    &&& r.user@ == user
    &&& r.temperature_percent == temperature_percent
    &&& r.force_json
}

/// A transport failure, carried on with its message.
pub open spec fn is_transport_error<T>(r: Result<T, LlmError>, message: Seq<char>) -> bool {
    match r {
        Err(LlmError::Transport(m)) => m@ == message,
        _ => false,
    }
}

/// An HTTP error with this status and body.
pub open spec fn is_http_error<T>(r: Result<T, LlmError>, status: u16, body: Seq<char>) -> bool {
    match r {
        Err(LlmError::Http { status: s, body: b }) => s == status && b@ == body,
        _ => false,
    }
}

fn credential_or_missing(stored: Option<&str>) -> (r: Result<Credential, LlmError>)
    ensures
        match stored_credential(opt_str_text(stored)) {
            Some(key) => r is Ok && r->Ok_0@ == key,
            None => r == Err::<Credential, LlmError>(LlmError::MissingCredential),
        },
{
    match stored {
        Some(raw) => match Credential::from_stored(raw) {
            Some(c) => Ok(c),
            None => Err(LlmError::MissingCredential),
        },
        None => Err(LlmError::MissingCredential),
    }
}

fn model_or_default(model: &Option<String>) -> (r: String)
    ensures
        r@ == text_or(*model, DEFAULT_MODEL@),
{
    match model {
        Some(m) => m.clone(),
        None => DEFAULT_MODEL.to_owned(),
    }
}

/// What to send to generate a challenge, given what the credential store
/// holds. Without a usable key it fails with `MissingCredential`, and there is
/// nothing to send.
pub fn plan_spec_generation(stored: Option<&str>, req: &ChallengeSpecRequest) -> (r: Result<
    ChatRequest,
    LlmError,
>)
    ensures
        match stored_credential(opt_str_text(stored)) {
            Some(key) => r is Ok && is_chat_request(
                r->Ok_0,
                key,
                text_or(req.model, DEFAULT_MODEL@),
                SPEC_SYSTEM_PROMPT@,
                spec_user_message(*req),
                SPEC_TEMPERATURE_PERCENT,
            ),
            None => r == Err::<ChatRequest, LlmError>(LlmError::MissingCredential),
        },
        r is Ok && req.level is None ==> r->Ok_0.user@.take(20) == "{\"level\":\"beginner\","@,
        r is Ok && req.model is None ==> r->Ok_0.model@ == "gpt-4o-mini"@,
{
    let credential = match credential_or_missing(stored) {
        Ok(c) => c,
        Err(e) => return Err(e),
    };
    let (system, user) = build_spec_prompt(req);
    Ok(
        ChatRequest {
            model: model_or_default(&req.model),
            system,
            user,
            credential,
            temperature_percent: SPEC_TEMPERATURE_PERCENT,
            force_json: true,
        },
    )
}

/// The generated challenge from what the remote call gave back.
pub fn finish_spec_generation(reply: &HttpReply) -> (r: Result<ChallengeSpecResult, LlmError>)
    ensures
        match reply {
            HttpReply::Failed(m) => is_transport_error(r, m@),
            HttpReply::Received { status, body } => if !is_success(*status) {
                is_http_error(r, *status, body@)
            } else {
                match body_content(body@) {
                    Some(c) => r is Ok && r->Ok_0@ == spec_of_content(c),
                    None => r == Err::<ChallengeSpecResult, LlmError>(LlmError::EmptyResponse),
                }
            },
        },
{
    match reply {
        HttpReply::Failed(m) => Err(LlmError::Transport(m.clone())),
        HttpReply::Received { status, body } => match completion_content(*status, body.as_str()) {
            Ok(content) => Ok(parse_spec(content.as_str())),
            Err(e) => Err(e),
        },
    }
}

/// What to send to grade an answer, given what the credential store holds.
/// Without a usable key it fails with `MissingCredential`, and there is
/// nothing to send. A request without a rubric is graded for three sentences
/// and an example.
pub fn plan_evaluation(stored: Option<&str>, req: &AnswerEvaluationRequest) -> (r: Result<
    ChatRequest,
    LlmError,
>)
    ensures
        match stored_credential(opt_str_text(stored)) {
            Some(key) => r is Ok && is_chat_request(
                r->Ok_0,
                key,
                text_or(req.model, DEFAULT_MODEL@),
                EVALUATION_SYSTEM_PROMPT@,
                evaluation_user_message(
                    req.node_id@,
                    req.title@,
                    effective_rubric(req.rubric),
                    req.answer@,
                ),
                EVALUATION_TEMPERATURE_PERCENT,
            ),
            None => r == Err::<ChatRequest, LlmError>(LlmError::MissingCredential),
        },
{
    let credential = match credential_or_missing(stored) {
        Ok(c) => c,
        Err(e) => return Err(e),
    };
    let fallback = Rubric { min_sentences: Some(3), require_example: Some(true), key_points: None };
    let rubric: &Rubric = match &req.rubric {
        Some(r) => r,
        None => &fallback,
    };
    let (system, user) = build_evaluation_prompt(req, rubric);
    Ok(
        ChatRequest {
            model: model_or_default(&req.model),
            system,
            user,
            credential,
            temperature_percent: EVALUATION_TEMPERATURE_PERCENT,
            force_json: true,
        },
    )
}

/// The verdict from what the remote call gave back.
pub fn finish_evaluation(reply: &HttpReply) -> (r: Result<AnswerEvaluationResult, LlmError>)
    ensures
        match reply {
            HttpReply::Failed(m) => is_transport_error(r, m@),
            HttpReply::Received { status, body } => if !is_success(*status) {
                is_http_error(r, *status, body@)
            } else {
                match body_content(body@) {
                    Some(c) => match parsed_json(c) {
                        Some(v) => r is Ok && r->Ok_0@ == evaluation_of_json(v),
                        None => r == Err::<AnswerEvaluationResult, LlmError>(
                            LlmError::MalformedEvaluation,
                        ),
                    },
                    None => r == Err::<AnswerEvaluationResult, LlmError>(LlmError::EmptyResponse),
                }
            },
        },
{
    match reply {
        HttpReply::Failed(m) => Err(LlmError::Transport(m.clone())),
        HttpReply::Received { status, body } => match completion_content(*status, body.as_str()) {
            Ok(content) => parse_evaluation(content.as_str()),
            Err(e) => Err(e),
        },
    }
}

/// The message of an HTTP error holds the status code in decimal and ends with
/// the response body as it came.
pub proof fn lemma_http_error_message(status: u16, body: String)
    ensures
        ({
            let m = error_message(LlmError::Http { status, body });
            let d = decimal(status as nat);
            &&& m.subrange(14, 14 + d.len() as int) == d
            &&& m.subrange(m.len() - body@.len(), m.len() as int) == body@
        }),
{
    reveal_strlit("OpenAI error: ");
    reveal_strlit(" ");
    let m = error_message(LlmError::Http { status, body });
    let d = decimal(status as nat);
    assert(m.subrange(14, 14 + d.len() as int) =~= d);
    assert(m.subrange(m.len() - body@.len(), m.len() as int) =~= body@);
}

} // verus!
