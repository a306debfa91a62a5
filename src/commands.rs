//! The small commands beside the two operations.
use vstd::prelude::*;

verus! {

/// The liveness probe's answer.
pub fn ping() -> (r: &'static str)
    ensures
        r@ == "pong"@,
{
    "pong"
}

/// A fixed three-step daily challenge for a level and a topic.
pub open spec fn daily_challenge_text(level: Seq<char>, topic: Seq<char>) -> Seq<char> {
    "Daily Micro-Challenges for level="@ + level + " topic="@ + topic
        + ":\n1) Explain the core concept in 3–6 sentences.\n2) Write a 10–20 line code snippet demonstrating it.\n3) Create a test prompt to validate understanding."@
}

/// The fixed daily challenge for `level` and `topic`.
pub fn generate_challenge(level: &str, topic: &str) -> (r: String)
    ensures
        r@ == daily_challenge_text(level@, topic@),
{
    let mut out = "Daily Micro-Challenges for level=".to_owned();
    out.append(level);
    out.append(" topic=");
    out.append(topic);
    out.append(
        ":\n1) Explain the core concept in 3–6 sentences.\n2) Write a 10–20 line code snippet demonstrating it.\n3) Create a test prompt to validate understanding.",
    );
    out
}

/// The acknowledgement that a node was marked in progress; nothing is stored.
pub fn mark_node_in_progress(id: &str) -> (r: String)
    ensures
        r@ == "marked "@ + id@ + " in progress (placeholder)"@,
{
    let mut out = "marked ".to_owned();
    out.append(id);
    out.append(" in progress (placeholder)");
    out
}

} // verus!
