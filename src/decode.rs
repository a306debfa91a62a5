//! Decoding the model's replies: field by field, with a default for whatever
//! is missing or of the wrong kind.
use vstd::prelude::*;
use crate::json::{
    opt_array, opt_bool, opt_str, opt_u64, parse_json, parsed_json, strings_in, Json, JsonValue,
};
use crate::model::{
    opt_text, texts, AnswerEvaluationResult, ChallengeSpecResult, LlmError, Rubric, RubricModel,
    SpecModel,
};

verus! {

/// The requirements used where the reply gives none.
pub open spec fn default_requirements() -> Seq<Seq<char>> {
    seq!["Explain the concept clearly."@, "Provide a concrete example."@]
}

/// The member `key` of an optional value.
pub open spec fn member_of(o: Option<Json>, key: Seq<char>) -> Option<Json> {
    match o {
        Some(v) => v.field(key),
        None => None,
    }
}

/// The view of an optional reference to a value.
pub open spec fn opt_json(o: Option<&JsonValue>) -> Option<Json> {
    match o {
        Some(v) => Some(v@),
        None => None,
    }
}

/// The string items of the `requirements` array; the default where there is
/// no such array or it holds no string.
pub open spec fn requirements_of(v: Json) -> Seq<Seq<char>> {
    match opt_array(v.field("requirements"@)) {
        Some(items) => if strings_in(items).len() > 0 {
            strings_in(items)
        } else {
            default_requirements()
        },
        None => default_requirements(),
    }
}

/// The rubric members that have the expected kind; the others stay unset.
pub open spec fn rubric_of(v: Json) -> RubricModel {
    let r = v.field("rubric"@);
    RubricModel {
        min_sentences: opt_u64(member_of(r, "min_sentences"@)),
        require_example: opt_bool(member_of(r, "require_example"@)),
        key_points: match opt_array(member_of(r, "key_points"@)) {
            Some(items) => Some(strings_in(items)),
            None => None,
        },
    }
}

/// A generated challenge read from a document.
pub open spec fn spec_of_json(v: Json) -> SpecModel {
    SpecModel { requirements: requirements_of(v), rubric: rubric_of(v) }
}

/// A generated challenge read from reply text; text that is not JSON reads as
/// a document with no members.
pub open spec fn spec_of_content(content: Seq<char>) -> SpecModel {
    match parsed_json(content) {
        Some(v) => spec_of_json(v),
        None => spec_of_json(Json::Null),
    }
}

/// A verdict read from a document: failed unless `passed` is `true`, and
/// "No feedback" unless `feedback` is a string.
pub open spec fn evaluation_of_json(v: Json) -> (bool, Seq<char>) {
    (
        match opt_bool(v.field("passed"@)) {
            Some(b) => b,
            None => false,
        },
        match opt_str(v.field("feedback"@)) {
            Some(s) => s,
            None => "No feedback"@,
        },
    )
}

/// The text content of the first choice of a chat-completion reply.
pub open spec fn envelope_content(v: Json) -> Option<Seq<char>> {
    match opt_array(v.field("choices"@)) {
        Some(choices) => if choices.len() > 0 {
            opt_str(member_of(choices[0].field("message"@), "content"@))
        } else {
            None
        },
        None => None,
    }
}

/// The content of a reply body, where the body is JSON and has one.
pub open spec fn body_content(body: Seq<char>) -> Option<Seq<char>> {
    match parsed_json(body) {
        Some(v) => envelope_content(v),
        None => None,
    }
}

pub open spec fn is_success(status: u16) -> bool {
    200 <= status <= 299
}

fn member<'a>(o: Option<&'a JsonValue>, key: &str) -> (r: Option<&'a JsonValue>)
    ensures
        opt_json(r) == member_of(opt_json(o), key@),
{
    match o {
        Some(v) => v.get(key),
        None => None,
    }
}

/// The requirements used where the reply gives none.
pub fn default_requirements_vec() -> (r: Vec<String>)
    ensures
        texts(r) == default_requirements(),
{
    let mut r: Vec<String> = Vec::new();
    r.push("Explain the concept clearly.".to_owned());
    r.push("Provide a concrete example.".to_owned());
    assert(texts(r) =~= default_requirements());
    r
}

/// Reads a generated challenge from a document.
pub fn spec_from_json(v: &JsonValue) -> (r: ChallengeSpecResult)
    ensures
        r@ == spec_of_json(v@),
{
    let requirements = match member(Some(v), "requirements") {
        Some(items) => match items.strings_of_array() {
            Some(found) => if found.len() > 0 {
                found
            } else {
                default_requirements_vec()
            },
            None => default_requirements_vec(),
        },
        None => default_requirements_vec(),
    };
    let rubric_value = member(Some(v), "rubric");
    let min_sentences = match member(rubric_value, "min_sentences") {
        Some(n) => n.as_u64(),
        None => None,
    };
    let require_example = match member(rubric_value, "require_example") {
        Some(b) => b.as_bool(),
        None => None,
    };
    let key_points = match member(rubric_value, "key_points") {
        Some(items) => items.strings_of_array(),
        None => None,
    };
    let r = ChallengeSpecResult {
        requirements,
        rubric: Rubric { min_sentences, require_example, key_points },
    };
    assert(r@.rubric == rubric_of(v@));
    r
}

/// Reads a generated challenge from the model's reply text. This never fails:
/// each field that is missing or malformed takes its default.
pub fn parse_spec(content: &str) -> (r: ChallengeSpecResult)
    ensures
        r@ == spec_of_content(content@),
        r@.requirements.len() > 0,
{
    let r = match parse_json(content) {
        Some(v) => spec_from_json(&v),
        None => spec_from_json(&JsonValue::Null),
    };
    proof {
        let v = match parsed_json(content@) {
            Some(v) => v,
            None => Json::Null,
        };
        reveal_strlit("Explain the concept clearly.");
        assert(default_requirements().len() > 0);
        assert(requirements_of(v).len() > 0);
    }
    r
}

/// Reads a verdict from a document.
pub fn evaluation_from_json(v: &JsonValue) -> (r: AnswerEvaluationResult)
    ensures
        r@ == evaluation_of_json(v@),
{
    let passed = match v.get("passed") {
        Some(p) => match p.as_bool() {
            Some(b) => b,
            None => false,
        },
        None => false,
    };
    let feedback = match v.get("feedback") {
        Some(f) => match f.as_str() {
            Some(s) => s.clone(),
            None => "No feedback".to_owned(),
        },
        None => "No feedback".to_owned(),
    };
    AnswerEvaluationResult { passed, feedback }
}

/// Reads a verdict from the model's reply text; only text that is not JSON
/// at all is an error.
pub fn parse_evaluation(content: &str) -> (r: Result<AnswerEvaluationResult, LlmError>)
    ensures
        match parsed_json(content@) {
            Some(v) => r is Ok && r->Ok_0@ == evaluation_of_json(v),
            None => r == Err::<AnswerEvaluationResult, LlmError>(LlmError::MalformedEvaluation),
        },
{
    match parse_json(content) {
        Some(v) => Ok(evaluation_from_json(&v)),
        None => Err(LlmError::MalformedEvaluation),
    }
}

/// The text content of the first choice of a chat-completion reply.
pub fn content_from_envelope(v: &JsonValue) -> (r: Option<String>)
    ensures
        opt_text(r) == envelope_content(v@),
{
    match member(Some(v), "choices") {
        Some(choices) => match choices {
            JsonValue::Array(items) => {
                proof {
                    reveal_with_fuel(<JsonValue as View>::view, 2);
                }
                if items.len() > 0 {
                    let message = member(Some(&items[0]), "message");
                    match member(message, "content") {
                        Some(c) => match c.as_str() {
                            Some(s) => Some(s.clone()),
                            None => None,
                        },
                        None => None,
                    }
                } else {
                    None
                }
            },
            _ => None,
        },
        None => None,
    }
}

/// The completion text in a reply: an HTTP error for a status outside
/// 200..=299, carrying the body as it came, and an empty response where the
/// body holds no text content for a first choice.
pub fn completion_content(status: u16, body: &str) -> (r: Result<String, LlmError>)
    ensures
        !is_success(status) ==> (match r {
            Err(LlmError::Http { status: s, body: b }) => s == status && b@ == body@,
            _ => false,
        }),
        is_success(status) ==> match body_content(body@) {
            Some(c) => r is Ok && r->Ok_0@ == c,
            None => r == Err::<String, LlmError>(LlmError::EmptyResponse),
        },
{
    if !(200 <= status && status <= 299) {
        return Err(LlmError::Http { status, body: body.to_owned() });
    }
    match parse_json(body) {
        Some(v) => match content_from_envelope(&v) {
            Some(c) => Ok(c),
            None => Err(LlmError::EmptyResponse),
        },
        None => Err(LlmError::EmptyResponse),
    }
}

} // verus!
