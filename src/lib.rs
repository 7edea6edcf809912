//! A logical query-plan representation whose constructors push selections
//! and projections towards the scans they constrain.
pub mod checked;
pub mod colset;
pub mod expr;
pub mod laws;
pub mod plan;
pub mod rewrite;
pub mod text;

