//! Turns the plain-text error output of the TypeScript compiler into
//! structured diagnostics and drives their explanation by a text
//! summarization service.
//!
//! The crate holds the decisions only: which lines of the compiler's output
//! are diagnostics, what is asked of the service for each of them, what is
//! read from its answer, and when a run stops. Starting the compiler,
//! reading files and talking to the service are left to the caller, who
//! feeds their outcomes to a [`pipeline::Pipeline`].
//!
//! - [`lines`]: splitting a text into lines.
//! - [`engine`]: the pattern engine, taken on trust.
//! - [`number`]: reading a number from its digits.
//! - [`diagnostic`]: the diagnostic record.
//! - [`extract`]: from the compiler's error output to diagnostics.
//! - [`compiler`]: what is read from an invocation of the compiler.
//! - [`json`]: JSON values and the lookups made in them.
//! - [`enrich`]: the request for a summary, and the summary in the answer.
//! - [`pipeline`]: the run, step by step.
//! - [`std_specs`]: what is taken on trust from the standard library.

pub mod compiler;
pub mod diagnostic;
pub mod engine;
pub mod enrich;
pub mod extract;
pub mod json;
pub mod lines;
pub mod number;
pub mod pipeline;
pub mod std_specs;
