//! A derive for the builder pattern, with its logic verified.

pub mod bridge;
pub mod parse;
pub mod syntax;
pub mod analyze;
pub mod generate;
pub mod text;
pub mod command;
pub mod expand;
