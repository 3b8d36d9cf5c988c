//! The agent core: command decomposition, the goal-driven control loop, the
//! coarse plan-driven loop, and the parsers for everything the model says.

pub mod decomposer;
pub mod observer;
pub mod orchestrator;
pub mod prompts;
pub mod runner;
pub mod thinker;
pub mod tools;
pub mod verify;
