//! Verified core of a desktop automation agent.
//!
//! A free-text command is decomposed into an ordered list of goals, and a
//! control loop drives an observe/decide/act/verify cycle per goal, within
//! attempt and action budgets and under explicit cancellation.  Every
//! decision-making step is delegated to an unreliable external model, so the
//! response parsers degrade through ordered fallback tiers instead of failing
//! fast.  This crate holds the deterministic core: the data model, the
//! parsers, the decomposer's fast path, and the state machines of both loop
//! variants.  Screen capture, model transport and OS input injection are
//! boundaries that the surrounding program supplies.

pub mod agent;
pub mod computer;
pub mod executor;
pub mod ext;
pub mod json;
pub mod laws;
pub mod llm;
pub mod screenshot;
pub mod text;
pub mod types;
pub mod vision;
