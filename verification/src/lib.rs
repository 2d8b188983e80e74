//! Declarative descriptions of command-line applications whose subcommands are
//! either ordinary callbacks or full-screen terminal widgets, together with
//! the `clap` command tree of such a description and the dispatch of a parsed
//! command line to the action it names.
//!
//! The crate never touches the terminal, the process arguments or the file
//! system: a caller parses the command line, hands the parse result to
//! [`cli_builder::execute_cli`], and carries out what the returned value asks
//! for.
//!
//! The crate is verified with Verus. What it assumes without proof, of `clap`
//! and of the standard library, stands in [`parser`] and in [`text`].

pub mod text;

pub mod action;

pub mod wrappers;

pub mod config;

pub mod parser;

pub mod cli_builder;
