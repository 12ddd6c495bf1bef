//! Core of an interactive command-line shell: a quote- and escape-aware
//! tokenizer, a parser that separates command arguments from redirection
//! directives, a resolver that picks the data sink for each descriptor, and
//! the dispatch rules that choose between builtins and external executables.
//!
//! All I/O (reading lines, opening files, spawning processes) lives outside
//! this crate; these modules hold the decision logic, fully specified.

pub mod dispatch;
pub mod parser;
pub mod redirect;
pub mod text;
pub mod tokenizer;
