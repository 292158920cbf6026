//! Core of a dataframe engine: where a plan's data comes from, how a relational
//! plan message becomes a logical plan, the streaming filter operator over
//! columnar batches, and the sinks that write batches and report what they wrote.
pub mod expr;
pub mod filter;
pub mod plan;
pub mod relation;
pub mod source_info;
pub mod table;
pub mod writer;
