//! A tour of the core language: small, self-contained building blocks for
//! control flow, data structures, functions, traits, ownership and lifetimes.
//! Each function states in its contract what it returns or changes.

pub mod control_flow;
pub mod data_structures;
pub mod functions;
pub mod lifetime_and_memory;
pub mod ownership;
pub mod text;
pub mod traits;
pub mod types_and_variables;
