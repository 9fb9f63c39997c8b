//! A verified conditional escrow library.
//!
//! One party (the initializer) locks a quantity of asset A in a vault owned
//! by a derived custody authority, expecting a quantity of asset B in return.
//! Exactly one of two settlements then consumes the escrow: the initializer
//! cancels and is refunded, or a taker exchanges the agreed amounts. The
//! state machine is verified to settle atomically, to conserve assets, and
//! to refuse unauthorized or replayed operations.
//!
//! `ledger` holds the asset model — token accounts, the checked transfer
//! and account closing; `escrow` the record and the custody authority
//! deriver; `initialize`, `cancel` and `exchange` the per-operation
//! account bundles and their funds-moving legs; `machine` the store of
//! active escrows and the three transitions; `laws` the proved statements
//! about those transitions.

pub mod cancel;
pub mod escrow;
pub mod exchange;
pub mod initialize;
pub mod laws;
pub mod ledger;
pub mod machine;
