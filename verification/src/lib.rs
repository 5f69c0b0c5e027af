//! Extraction and dispatch of generate directives embedded in source comments.
//!
//! A module's source text is scanned for comment lines that start with the
//! directive marker. Each such line names a command to run, or defines an alias
//! for later lines of the same module. The library tokenizes the directives,
//! expands aliases, filters modules by glob and directives by regular
//! expression, and decides what is announced, spawned and reported.

pub mod alias;
pub mod command;
pub mod engine;
pub mod error;
pub mod filter;
pub mod location;
pub mod parse_comments;
pub mod quoted_split;
pub mod text;
