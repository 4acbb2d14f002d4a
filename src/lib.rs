//! The evaluation engine of a code-running bot: language configuration,
//! dispatch between execution strategies, the one-shot subprocess strategy,
//! the framed protocol of the persistent worker, the output helpers used
//! when presenting results, and the decisions of the chat front end.

pub mod text;
pub mod wire;
pub mod exec;
pub mod persistent;
pub mod config;
pub mod output;
pub mod frontend;
