//! A typed command/response translation layer for a key-value store's
//! time-series module: structured configuration and query values are encoded
//! into the exact ordered token sequences the remote module expects, and the
//! module's nested reply values are decoded back into typed results.
//!
//! The transport itself (sending a command, receiving a reply) is a black box
//! to this crate: encoders produce ordered wire tokens for it, and decoders
//! consume its generic reply representation.

use vstd::prelude::*;

pub mod aggregation;
pub mod commands;
pub mod filter;
pub mod info;
pub mod multi;
pub mod options;
pub mod range;
pub mod reply;
pub mod wire;

pub use aggregation::TsAggregationType;
pub use commands::TsCommand;
pub use filter::{TsFilter, TsFilterOptions};
pub use info::TsInfo;
pub use multi::{TsMget, TsMgetEntry, TsMrange, TsMrangeEntry};
pub use options::{TsDuplicatePolicy, TsOptions};
pub use range::{TsAlign, TsRangeQuery, TsTimeBound};
pub use reply::{Reply, TsPoint};

verus! {

/// Errors raised by this layer itself, before or after the transport call.
#[derive(Clone, Copy, Debug, PartialEq, Eq, Structural)]
pub enum TsError {
    /// A filter expression set held no predicate, which the remote protocol
    /// does not allow.
    EmptyFilter,
    /// A reply did not have the nested shape the command's decoder expects.
    ReplyShapeMismatch,
}

} // verus!
