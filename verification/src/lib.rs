//! The command interpretation core of a small interactive shell: tokenizing a
//! line, telling builtins from external programs, resolving programs on a
//! search path, and wording every message the shell prints.
//!
//! The library performs no I/O. It writes into in-memory sinks and states as a
//! [`dispatch::Request`] what it needs from its host.
pub mod text;
pub mod session;
pub mod tokenizer;
pub mod resolver;
pub mod builtins;
pub mod executor;
pub mod dispatch;
