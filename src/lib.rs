//! Runtime core of a policy engine: module pre-building, the two execution
//! protocols, the instance registry, the callback bridge decisions and a
//! time-bound single-flight cache for verification results.

pub mod mode;
pub mod builder;
pub mod registry;
pub mod pre;
pub mod compile;
pub mod cache;
pub mod order;
pub mod keys;
pub mod bridge;
