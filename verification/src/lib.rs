//! Verified core of `ni`, a small front-end that hands a handful of named
//! operations (rebuild, update, clean, audit) to scripts kept in one directory.
//!
//! The library decides *what* is run: which script, with which arguments, and
//! what follows once a script has ended. Running the scripts is left to the
//! caller.

pub mod dispatch;
pub mod label;
pub mod script;
pub mod trusted;
