//! Prompt construction and defensive decoding for an LLM-backed challenge
//! generator and answer grader.
pub mod json;
pub mod text;
pub mod model;
pub mod prompt;
pub mod decode;
pub mod orchestrate;
pub mod commands;
