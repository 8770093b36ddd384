//! The types a query shape is made of.

pub mod column_types;
pub mod ordered;
pub mod ts_field_type;
pub mod ts_query;
