//! Flag resolution for a command-line front end to `rustc` and `rustdoc`.
//!
//! The crate turns what the user typed and what the process environment holds
//! into typed, validated values: the argument model ([`data`]), the
//! command-line configuration and its cross-field rules ([`cli`]), and the
//! flags that `RUSTFLAGS` and `RUSTDOCFLAGS` contribute
//! ([`command::environment`]).

pub mod cli;
pub mod command;
pub mod data;
pub mod text;
