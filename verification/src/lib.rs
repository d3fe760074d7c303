//! A two-asset constant-product automated market maker.
//!
//! The pool engine owns no balances itself: all state lives in a host
//! ledger, addressed through a deterministically derived pool account.
//! This crate verifies the engine's core — the constant-product pricing
//! computation, the checked-arithmetic discipline around it, and the
//! all-or-nothing accounting of each operation — against a model of the
//! slice of the ledger that a single operation touches.

pub mod account;
pub mod errors;
pub mod ledger;
pub mod pool;
pub mod pricing;
