//! Worker-side execution core for durable, multi-step functions.
//!
//! An orchestrator calls the worker once per round. The worker replays the
//! function against the memo of completed steps, stops at the first step that
//! is not memoized yet, and reports that step back so the orchestrator can
//! persist it and call again.
pub mod json;
pub mod step_tool;
pub mod function;
pub mod handler;
pub mod replay;
