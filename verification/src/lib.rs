//! Verified data model and conversion logic for llama.cpp chat templates:
//! messages, tools, template inputs and results, parse syntax, message diffs,
//! and their byte-level representation at the C boundary.

pub mod codes;
pub mod diff;
pub mod error;
pub mod laws;
pub mod message;
pub mod syntax;
pub mod template;
pub mod text;
