//! A fine-grained reactive runtime: a dependency-tracking graph of stored and
//! derived values with automatic subscription, value-based propagation
//! cutoff, hierarchical ownership and disposal, scoped context inheritance,
//! and a typed publish/subscribe bus layered on the same ownership tree.

pub mod arena;
pub mod environment;
pub mod errors;
pub mod expr;
pub mod laws;
pub mod model;
pub mod node;
pub mod nodes;
pub mod recievers;
pub mod runtime;
pub mod signal;
pub mod state;
pub mod tasks;
pub mod value;
