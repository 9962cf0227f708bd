//! An on-chain price-oracle relay, stated and proved as a library: a
//! whitelisted set of relayers pushes rate observations into a per-symbol
//! reference store behind a monotonic freshness guard; a deterministic
//! round-robin scheduler picks the next live relayer to serve a request; a
//! consumer contract correlates each asynchronous request with its eventual
//! callback and rejects mismatched or unauthorized answers; and a cross-rate
//! engine derives pair rates in fixed-point arithmetic.
//!
//! The host ledger, the wire encoding and the cross-contract transport are
//! the boundary's business: the library works on plain values and owns every
//! rule about them.

pub mod events;
pub mod feed;
pub mod helper;
pub mod kvlist;
pub mod query;
pub mod text;
