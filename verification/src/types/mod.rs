//! Numeric helper types.
pub mod integer;
