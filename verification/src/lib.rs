//! Per-order escrow ledger with a delegated execution path.
//!
//! Each escrow record is identified by its `(owner, order_id)` pair and holds
//! a native-currency balance together with at most one embedded limit order.
//! Write authority over a record can be handed from the primary execution
//! domain to a secondary low-latency domain; every mutating operation checks
//! which domain currently holds authority before touching the record.

pub mod address;
pub mod codec;
pub mod laws;
pub mod state;
pub mod store;
pub mod types;
