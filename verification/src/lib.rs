//! Execution core of an interactive command shell.
//!
//! A typed command line is lexed and parsed into an execution plan, and the
//! plan is evaluated against a uniform process abstraction that treats shell
//! built-ins and spawned programs alike: pipelines, conditional chaining,
//! redirection, and asynchronous supervision of a running command.
//!
//! The crate holds the decision logic only. Spawning OS children, blocking
//! reads and writes, and the cooperative scheduler live in the surrounding
//! binary, which drives the state machines defined here.

pub mod builtins;
pub mod bytepipe;
pub mod child;
pub mod cmdthread;
pub mod delegate;
pub mod exec;
pub mod parser;
pub mod plan;
pub mod process;
pub mod state;
pub mod status;
pub mod strutil;
pub mod token;
pub mod unescape;
