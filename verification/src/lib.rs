//! A small interactive shell's command-interpretation engine: tokenizing an
//! input line, dispatching builtins (`help`, `exit`, `cd`, `pwd`, `echo`),
//! tracking the working-directory session state, and classifying the outcome
//! of external-command execution. All decisions are made here; the enclosing
//! program performs the actual reading, printing, environment lookups,
//! filesystem probes and process spawning, feeding the results back in.

pub mod errors;
pub mod interpreter;
pub mod laws;
pub mod tokens;

pub use errors::ShellError;
pub use interpreter::CliInterpreter;
pub use interpreter::SpawnOutcome;
pub use interpreter::Step;
pub use tokens::str_equal;
pub use tokens::tokenize;
