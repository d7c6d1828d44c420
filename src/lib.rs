//! Configuration resolution and transform-pipeline core of a JavaScript /
//! TypeScript compiler: the layered configuration model and its merge, the
//! directory walk that finds the applicable configuration file, the builder
//! of the ordered pass chain, and the compile session that drives an outside
//! parser, pass runner and printer.

pub mod config;
pub mod merge;
pub mod pipeline;
pub mod resolve;
pub mod cache;
pub mod error;
pub mod session;
