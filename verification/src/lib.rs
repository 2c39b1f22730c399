//! The decision core of a tool-using agent: it reads what a language
//! model wrote, decides what to do next, holds tool outcomes to
//! guardrails, checks extracted values against their source, and runs
//! the loop with its bounded retries. Every function is verified
//! against the contract it states.

pub mod agent;
pub mod guardrail;
pub mod json;
pub mod llm;
pub mod orchestrator;
pub mod prompt;
pub mod protocol;
pub mod skill;
pub mod skill_manifest;
pub mod text;
pub mod tool;
