//! Git hook discovery and invocation engine.
//!
//! Given a repository and a hook name (`pre-commit`, `commit-msg`, ...) the
//! library resolves which hook script governs that event, following git's own
//! precedence rules for `core.hooksPath` and the default hooks directory, and
//! plans a platform-appropriate process invocation whose outcome is classified
//! into a small result taxonomy.
//!
//! Platform-specific behaviour (Unix executable bits, Windows shell quoting)
//! is selected by a [`paths::Platform`] capability descriptor handed in by the
//! caller; filesystem probes, configuration reads and process launches reach
//! the operating system through narrow trusted wrappers or through values the
//! caller supplies, while every decision taken on their results is verified.

pub mod clipboard;
pub mod emoji;
pub mod error;
pub mod highlight;
pub mod hooks;
pub mod hookspath;
pub mod invoke;
pub mod paths;
pub mod progress;
