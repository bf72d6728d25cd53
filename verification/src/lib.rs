//! Governance core of a multi-party organization: proposals, role-weighted
//! voting, status transitions, and the effects an approved proposal calls for.
//!
//! The library performs no input or output. Facts about the current call
//! (who calls, block height, time) and the answers of the policy are handed
//! in as plain values; what has to happen outside is handed back as an
//! [`effects::Effect`].

pub mod string_map;
pub mod types;
pub mod proposals;
pub mod effects;
pub mod store;
pub mod contract;
pub mod laws;
