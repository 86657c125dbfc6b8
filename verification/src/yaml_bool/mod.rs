//! Lenient booleans.
//!
//! YAML lets a boolean be written in more ways than `true` and `false`:
//! `true`, `yes`, `on` and `y` stand for true, `false`, `no`, `off` and `n`
//! for false, each in any mix of upper and lower case. This module decodes
//! such a value, and an optional one, from what a document holds.

pub mod decoder;
pub mod error;
pub mod grammar;
pub mod laws;
pub mod token;
