//! What the operations of the library are for, stated of their inputs and results.
pub mod batches;
pub mod checks;
pub mod encoders;
pub mod field;
pub mod inputs;
pub mod program;
pub mod refusals;
pub mod registry;
pub mod reports;
pub mod signatures;
pub mod signing;
pub mod texts;
pub mod tree_program;
pub mod trees;
