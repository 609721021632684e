//! A command-policy gate: given a shell command that is about to run, it
//! answers allow or deny, and on deny gives the reason.
//!
//! - [`segment`] splits a compound command into its sub-commands, aware of
//!   quotes.
//! - [`patterns`] holds the built-in deny rules, which nothing overrides, and
//!   [`config`] the user's rule document, in which allow overrides deny.
//! - [`policy`] decides: built-in rules first, then the user's.
//! - [`autoupdate`] plans the refresh of the user's rule document.
//! - [`rules`] and [`compile`] hold the model that the contracts speak of,
//!   [`laws`] what is proved of it, [`matcher`] what is assumed of the
//!   regular-expression engine, and [`text`] the handling of characters.

pub mod autoupdate;
pub mod compile;
pub mod config;
pub mod laws;
pub mod matcher;
pub mod patterns;
pub mod policy;
pub mod rules;
pub mod segment;
pub mod text;
