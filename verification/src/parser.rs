//! The search for tagged SQL templates in a syntax tree.

pub mod ast;
pub mod found;
pub mod groups;
pub mod js_parser;
pub mod labels;
pub mod tag;
