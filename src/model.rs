//! The requests, results, errors and the chat request handed to the transport.
use vstd::prelude::*;
use crate::text::{decimal, has_visible_char, lemma_trimmed_visible, push_decimal, trim_str, trimmed};

verus! {

/// The view of an optional string.
pub open spec fn opt_text(o: Option<String>) -> Option<Seq<char>> {
    match o {
        Some(s) => Some(s@),
        None => None,
    }
}

/// The views of a list of strings.
pub open spec fn texts(v: Vec<String>) -> Seq<Seq<char>> {
    v@.map_values(|s: String| s@)
}

/// A request to generate the requirements and rubric of a challenge.
#[derive(Clone, Debug)]
pub struct ChallengeSpecRequest {
    pub title: String,
    pub tasks: Vec<String>,
    pub level: Option<String>,
    pub model: Option<String>,
}

/// Grading criteria; every field may be left unspecified.
#[derive(Clone, Debug, PartialEq, Eq)]
pub struct Rubric {
    pub min_sentences: Option<u64>,
    pub require_example: Option<bool>,
    pub key_points: Option<Vec<String>>,
}

/// The view of a [`Rubric`].
pub struct RubricModel {
    pub min_sentences: Option<u64>,
    pub require_example: Option<bool>,
    pub key_points: Option<Seq<Seq<char>>>,
}

impl View for Rubric {
    type V = RubricModel;

    open spec fn view(&self) -> RubricModel {
        RubricModel {
            min_sentences: self.min_sentences,
            require_example: self.require_example,
            key_points: match self.key_points {
                Some(v) => Some(texts(v)),
                None => None,
            },
        }
    }
}

/// Generated requirements and rubric of a challenge.
#[derive(Clone, Debug, PartialEq, Eq)]
pub struct ChallengeSpecResult {
    pub requirements: Vec<String>,
    pub rubric: Rubric,
}

/// The view of a [`ChallengeSpecResult`].
pub struct SpecModel {
    pub requirements: Seq<Seq<char>>,
    pub rubric: RubricModel,
}

impl View for ChallengeSpecResult {
    type V = SpecModel;

    open spec fn view(&self) -> SpecModel {
        SpecModel { requirements: texts(self.requirements), rubric: self.rubric@ }
    }
}

/// A learner's answer to be graded.
#[derive(Clone, Debug)]
pub struct AnswerEvaluationRequest {
    pub node_id: String,
    pub title: String,
    pub answer: String,
    pub model: Option<String>,
    pub rubric: Option<Rubric>,
}

/// The verdict on an answer.
#[derive(Clone, Debug, PartialEq, Eq)]
pub struct AnswerEvaluationResult {
    pub passed: bool,
    pub feedback: String,
}

impl View for AnswerEvaluationResult {
    type V = (bool, Seq<char>);

    open spec fn view(&self) -> (bool, Seq<char>) {
        (self.passed, self.feedback@)
    }
}

/// Why an operation failed.
#[derive(Clone, Debug, PartialEq, Eq)]
pub enum LlmError {
    /// No usable API key is stored.
    MissingCredential,
    /// The request did not reach the endpoint or its reply could not be read.
    Transport(String),
    /// The endpoint answered with a status outside 200..=299.
    Http { status: u16, body: String },
    /// The reply held no first choice with text content.
    EmptyResponse,
    /// The grading reply was not JSON at all.
    MalformedEvaluation,
}

/// The message that describes an error.
pub open spec fn error_message(e: LlmError) -> Seq<char> {
    match e {
        LlmError::MissingCredential => "OpenAI API key not set in Settings"@,
        LlmError::Transport(m) => m@,
        LlmError::Http { status, body } => "OpenAI error: "@ + decimal(status as nat) + " "@
            + body@,
        LlmError::EmptyResponse => "No content"@,
        LlmError::MalformedEvaluation => "Evaluation reply is not valid JSON"@,
    }
}

impl LlmError {
    /// The human-readable message for this error.
    pub fn message(&self) -> (r: String)
        ensures
            r@ == error_message(*self),
    {
        match self {
            LlmError::MissingCredential => "OpenAI API key not set in Settings".to_owned(),
            LlmError::Transport(m) => m.clone(),
            LlmError::Http { status, body } => {
                let mut out = "OpenAI error: ".to_owned();
                push_decimal(&mut out, *status as u64);
                out.append(" ");
                out.append(body.as_str());
                out
            },
            LlmError::EmptyResponse => "No content".to_owned(),
            LlmError::MalformedEvaluation => "Evaluation reply is not valid JSON".to_owned(),
        }
    }
}

/// An API key: never empty and never white space alone.
#[derive(Debug)]
pub struct Credential {
    secret: String,
}

impl View for Credential {
    type V = Seq<char>;

    closed spec fn view(&self) -> Seq<char> {
        self.secret@
    }
}

impl Clone for Credential {
    fn clone(&self) -> (r: Credential)
        ensures
            r@ == self@,
    {
        proof {
            use_type_invariant(self);
        }
        Credential { secret: self.secret.clone() }
    }
}

impl Credential {
    #[verifier::type_invariant]
    spec fn inv(&self) -> bool {
        has_visible_char(self.secret@)
    }

    /// The key in stored text: the text trimmed of white space, absent where
    /// nothing is left.
    pub fn from_stored(raw: &str) -> (r: Option<Credential>)
        ensures
            match r {
                Some(c) => c@ == trimmed(raw@) && trimmed(raw@).len() > 0,
                None => trimmed(raw@).len() == 0,
            },
    {
        let t = trim_str(raw);
        if t.is_empty() {
            None
        } else {
            proof {
                lemma_trimmed_visible(raw@);
            }
            Some(Credential { secret: t.to_owned() })
        }
    }

    /// The key's text.
    pub fn secret(&self) -> (r: &str)
        ensures
            r@ == self@,
            has_visible_char(r@),
    {
        proof {
            use_type_invariant(self);
        }
        self.secret.as_str()
    }
}

/// The key found in what the credential store holds, if any.
pub open spec fn stored_credential(stored: Option<Seq<char>>) -> Option<Seq<char>> {
    match stored {
        Some(raw) => if trimmed(raw).len() > 0 {
            Some(trimmed(raw))
        } else {
            None
        },
        None => None,
    }
}

/// One chat-completion call: a system message, then a user message.
///
/// The sampling temperature is given in hundredths.
#[derive(Clone, Debug)]
pub struct ChatRequest {
    pub model: String,
    pub system: String,
    pub user: String,
    pub credential: Credential,
    pub temperature_percent: u32,
    pub force_json: bool,
}

/// What came back from sending a [`ChatRequest`].
#[derive(Clone, Debug)]
pub enum HttpReply {
    /// Sending, or reading the reply, failed with this message.
    Failed(String),
    /// The endpoint answered with this status and body.
    Received { status: u16, body: String },
}

} // verus!
