//! A struct-schema transformer: from a named batch of record definitions it
//! derives, for each record, a companion "slim" record that omits fields
//! marked as excluded from serialization and repoints same-batch type
//! references to the slim companions. Originals are emitted unchanged,
//! ahead of the companions, both in declaration order.

pub mod collector;
pub mod emitter;
pub mod engine;
pub mod filter;
pub mod laws;
pub mod mapper;
pub mod model;
pub mod rewriter;
