//! An autonomous task-solving loop: declared actions with typed parameters,
//! an append-only step log that renders itself back into model prompts, and
//! the planning/generation state machine that drives both.

pub mod actions;
pub mod agents;
pub mod memory;
pub mod prompts;
pub mod records;
pub mod states;
pub mod text;
