//! The engine of an interactive shell: a line editor driven by keystrokes,
//! a tokenizer, the `cd` builtin, the dispatch of a line to a builtin or an
//! executable, the event stream of a child on a pseudo-terminal, a
//! multiplexer for commands that run at the same time, and the decisions of
//! the read-eval-print loop. The I/O around them is left to the caller.

pub mod builtins;
pub mod eval;
pub mod newline;
mod os;
pub mod parser;
pub mod process;
pub mod raw_mode;
pub mod readline;
pub mod repl;
pub mod state;
pub mod term;
