//! The system instructions and user messages of the two operations.
use vstd::prelude::*;
use crate::json::{json_quoted, quote_json};
use crate::model::{
    opt_text, texts, AnswerEvaluationRequest, ChallengeSpecRequest, Rubric, RubricModel,
};
use crate::text::{bool_text, decimal, joined, push_bool, push_decimal, push_joined};

verus! {

/// The level used where a request names none.
pub const DEFAULT_LEVEL: &'static str = "beginner";

/// The model used where a request names none.
pub const DEFAULT_MODEL: &'static str = "gpt-4o-mini";

/// The instruction for generating requirements and a rubric.
pub const SPEC_SYSTEM_PROMPT: &'static str = "You are an expert AI tutor creating node-specific challenge requirements.\nReturn ONLY JSON like:\n{\n  \"requirements\": [\"...\",\"...\",\"...\"],\n  \"rubric\": {\n    \"min_sentences\": number,\n    \"require_example\": true|false,\n    \"key_points\": [\"...\", \"...\"]\n  }\n}\nKeep requirements 3-6 bullet points, concrete, and directly tied to the provided tasks.";

/// The instruction for grading an answer.
pub const EVALUATION_SYSTEM_PROMPT: &'static str = "You are a strict evaluator. Return ONLY JSON like:\n{ \"passed\": boolean, \"feedback\": \"short explanation\" }";

/// `o`, or `default` where it is absent.
pub open spec fn text_or(o: Option<String>, default: Seq<char>) -> Seq<char> {
    match opt_text(o) {
        Some(s) => s,
        None => default,
    }
}

/// The JSON object `{"level":…,"tasks":[…],"title":…}` from its members'
/// JSON texts, keys in sorted order and without white space.
pub open spec fn payload_text(
    title_json: Seq<char>,
    level_json: Seq<char>,
    task_jsons: Seq<Seq<char>>,
) -> Seq<char> {
    "{\"level\":"@ + level_json + ",\"tasks\":["@ + joined(task_jsons, ","@) + "],\"title\":"@
        + title_json + "}"@
}

/// The JSON string literal of each text, in order.
pub open spec fn quoted_each(ts: Seq<Seq<char>>) -> Seq<Seq<char>> {
    ts.map_values(|t: Seq<char>| json_quoted(t))
}

/// The user message of a generation request.
pub open spec fn spec_user_message(req: ChallengeSpecRequest) -> Seq<char> {
    payload_text(
        json_quoted(req.title@),
        json_quoted(text_or(req.level, DEFAULT_LEVEL@)),
        quoted_each(texts(req.tasks)),
    )
}

/// Writes the generation payload from the JSON texts of its members.
pub fn assemble_spec_payload(title_json: &str, level_json: &str, task_jsons: &Vec<String>) -> (r:
    String)
    ensures
        r@ == payload_text(title_json@, level_json@, texts(*task_jsons)),
{
    let mut out = "{\"level\":".to_owned();
    out.append(level_json);
    out.append(",\"tasks\":[");
    push_joined(&mut out, task_jsons, ",");
    out.append("],\"title\":");
    out.append(title_json);
    out.append("}");
    assert(out@ =~= payload_text(title_json@, level_json@, texts(*task_jsons)));
    out
}

/// The system instruction and user message that ask for a challenge's
/// requirements and rubric.
pub fn build_spec_prompt(req: &ChallengeSpecRequest) -> (r: (String, String))
    ensures
        r.0@ == SPEC_SYSTEM_PROMPT@,
        r.1@ == spec_user_message(*req),
        req.level is None ==> r.1@.take(20) == "{\"level\":\"beginner\","@,
{
    let level: &str = match &req.level {
        Some(l) => l.as_str(),
        None => DEFAULT_LEVEL,
    };
    let level_json = quote_json(level);
    let title_json = quote_json(req.title.as_str());
    let mut task_jsons: Vec<String> = Vec::new();
    let ghost tasks = texts(req.tasks);
    let mut i: usize = 0;
    while i < req.tasks.len()
        invariant
            0 <= i <= req.tasks.len(),
            tasks == texts(req.tasks),
            texts(task_jsons) == quoted_each(tasks.take(i as int)),
        decreases req.tasks.len() - i,
    {
        let q = quote_json(req.tasks[i].as_str());
        let ghost before = task_jsons@;
        let ghost before_texts = texts(task_jsons);
        task_jsons.push(q);
        assert(task_jsons@ == before.push(q));
        assert(texts(task_jsons) =~= before_texts.push(q@));
        assert(quoted_each(tasks.take(i + 1)) =~= quoted_each(tasks.take(i as int)).push(
            json_quoted(tasks[i as int]),
        ));
        assert(tasks[i as int] == req.tasks@[i as int]@);
        assert(tasks.take(i + 1) =~= tasks.take(i as int).push(tasks[i as int]));
        assert(texts(task_jsons) =~= quoted_each(tasks.take(i + 1)));
        i = i + 1;
    }
    assert(tasks.take(req.tasks.len() as int) =~= tasks);
    let user = assemble_spec_payload(title_json.as_str(), level_json.as_str(), &task_jsons);
    proof {
        if req.level is None {
            reveal_strlit("beginner");
            reveal_strlit("{\"level\":");
            reveal_strlit("{\"level\":\"beginner\",");
            reveal_strlit(",\"tasks\":[");
            reveal_strlit("\"beginner\"");
            assert(level@ == DEFAULT_LEVEL@);
            assert(crate::json::is_plain_json_text(DEFAULT_LEVEL@));
            assert(level_json@ =~= seq!['"'] + DEFAULT_LEVEL@ + seq!['"']);
            let head = "{\"level\":"@ + level_json@ + ",\"tasks\":["@;
            assert(user@ == head + joined(texts(task_jsons), ","@) + "],\"title\":"@ + title_json@
                + "}"@);
            assert(user@.take(20) =~= head.take(20));
            assert(head.take(20) =~= "{\"level\":\"beginner\","@);
        }
    }
    (SPEC_SYSTEM_PROMPT.to_owned(), user)
}

/// The rubric that grades an answer: the request's own, or at least three
/// sentences with an example.
pub open spec fn effective_rubric(r: Option<Rubric>) -> RubricModel {
    match r {
        Some(rubric) => rubric@,
        None => RubricModel {
            min_sentences: Some(3),
            require_example: Some(true),
            key_points: None,
        },
    }
}

/// One summary line for each field that the rubric sets; key points only
/// where there is at least one.
pub open spec fn rubric_lines(r: RubricModel) -> Seq<Seq<char>> {
    let sentences = match r.min_sentences {
        Some(n) => seq!["Minimum sentences: "@ + decimal(n as nat)],
        None => Seq::empty(),
    };
    let example = match r.require_example {
        Some(b) => seq!["Require example: "@ + bool_text(b)],
        None => Seq::empty(),
    };
    let points = match r.key_points {
        Some(k) => if k.len() > 0 {
            seq!["Key points to hit: "@ + joined(k, ", "@)]
        } else {
            Seq::empty()
        },
        None => Seq::empty(),
    };
    sentences + example + points
}

/// The user message that asks to grade an answer against a rubric.
pub open spec fn evaluation_user_message(
    node_id: Seq<char>,
    title: Seq<char>,
    rubric: RubricModel,
    answer: Seq<char>,
) -> Seq<char> {
    "Evaluate the answer for node '"@ + node_id + "' ("@ + title + ").\nRubric:\n"@ + joined(
        rubric_lines(rubric),
        "\n"@,
    ) + "\n\nAnswer:\n"@ + answer
}

/// The summary lines of a rubric.
pub fn rubric_summary(rubric: &Rubric) -> (r: Vec<String>)
    ensures
        texts(r) == rubric_lines(rubric@),
{
    let mut lines: Vec<String> = Vec::new();
    if let Some(n) = rubric.min_sentences {
        let mut line = "Minimum sentences: ".to_owned();
        push_decimal(&mut line, n);
        lines.push(line);
    }
    if let Some(b) = rubric.require_example {
        let mut line = "Require example: ".to_owned();
        push_bool(&mut line, b);
        lines.push(line);
    }
    if let Some(k) = &rubric.key_points {
        if k.len() > 0 {
            let mut line = "Key points to hit: ".to_owned();
            push_joined(&mut line, k, ", ");
            lines.push(line);
        }
    }
    assert(texts(lines) =~= rubric_lines(rubric@));
    lines
}

/// The system instruction and user message that ask to grade an answer
/// against `rubric`.
pub fn build_evaluation_prompt(req: &AnswerEvaluationRequest, rubric: &Rubric) -> (r: (
    String,
    String,
))
    ensures
        r.0@ == EVALUATION_SYSTEM_PROMPT@,
        r.1@ == evaluation_user_message(req.node_id@, req.title@, rubric@, req.answer@),
{
    let lines = rubric_summary(rubric);
    let mut user = "Evaluate the answer for node '".to_owned();
    user.append(req.node_id.as_str());
    user.append("' (");
    user.append(req.title.as_str());
    user.append(").\nRubric:\n");
    push_joined(&mut user, &lines, "\n");
    user.append("\n\nAnswer:\n");
    user.append(req.answer.as_str());
    assert(user@ =~= evaluation_user_message(req.node_id@, req.title@, rubric@, req.answer@));
    (EVALUATION_SYSTEM_PROMPT.to_owned(), user)
}

/// Grading without a rubric of the request's own asks for three sentences and
/// an example, and names no key points.
pub proof fn lemma_default_rubric_lines()
    ensures
        rubric_lines(effective_rubric(None)) == seq![
            "Minimum sentences: 3"@,
            "Require example: true"@,
        ],
{
    reveal_strlit("Minimum sentences: ");
    reveal_strlit("Minimum sentences: 3");
    reveal_strlit("Require example: ");
    reveal_strlit("Require example: true");
    assert(decimal(3) =~= seq!['3']);
    assert("Minimum sentences: "@ + decimal(3) =~= "Minimum sentences: 3"@);
    assert("Require example: "@ + bool_text(true) =~= "Require example: true"@);
    assert(rubric_lines(effective_rubric(None)) =~= seq![
        "Minimum sentences: 3"@,
        "Require example: true"@,
    ]);
}

} // verus!
