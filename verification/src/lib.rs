//! An agentic task-execution engine: a goal is decomposed into ordered
//! sub-tasks, each sub-task is routed to one of a fixed set of capabilities
//! (reasoning, web search, page fetch, code generation), code generation is
//! iterated against an interpreter until it succeeds or a retry budget runs
//! out, and over-long transcripts are folded back into a bounded summary.
//!
//! The completion client, the persistence layer and the subprocess plumbing
//! are external collaborators; this crate holds the decision logic and the
//! data it runs on.

pub mod agent;
pub mod bridge;
pub mod compress;
pub mod dispatch;
pub mod extract;
pub mod json;
pub mod messages;
pub mod registry;
pub mod repair;
pub mod store;
pub mod task_ledger;
pub mod text;
