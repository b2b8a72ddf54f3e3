//! The command-invocation and pipeline engine of a small shell runtime:
//! resolution of calls, blocking analysis, dispatch plans and the
//! stage-by-stage schedule of user-defined closures.

pub mod call_definition;
pub mod command;
pub mod errors;
pub mod job;
pub mod parse_util;
pub mod re;
pub mod scope;
pub mod traversal;
pub mod value;
