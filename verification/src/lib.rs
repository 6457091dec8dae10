//! A time-locked, interest-bearing deposit protocol for a UTXO-style ledger.
//!
//! Value is locked into a deposit cell, later moved into a prepared cell, and
//! finally withdrawn with interest once a maturity window has elapsed.  The
//! crate models the epoch clock, the accumulated interest-rate table, the
//! overflow-checked capacity arithmetic, the three-stage cell lifecycle, and
//! the transaction verifier that enforces every rule of the protocol.

pub mod capacity;
pub mod epoch;
pub mod errors;
pub mod lifecycle;
pub mod rate;
pub mod since;
pub mod validation;
