//! Extraction of SQL tagged templates from a TypeScript syntax tree and
//! generation of TypeScript declarations for the queries found.

pub mod common;
pub mod db;
pub mod parser;
pub mod text;
pub mod ts_generator;
