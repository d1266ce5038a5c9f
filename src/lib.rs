//! Commit-message suggestion: prompt assembly, reply interpretation and the
//! decisions of the `login` and `generate` commands.

pub mod text;
pub mod prompt;
pub mod error;
pub mod cli_config;
pub mod gemini;
pub mod session;
