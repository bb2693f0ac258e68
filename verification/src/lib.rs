//! Event-ingestion core of a cross-chain bridge watcher for an EVM-compatible
//! chain.
//!
//! The library turns raw, loosely structured chain logs into finality-gated,
//! positionally unambiguous bridge actions. Its two central duties are:
//!
//! * cross-validating a raw log against its transaction receipt to recover the
//!   log's canonical position *inside its transaction* (distinct from its
//!   block-scoped index), detecting inconsistent provider data on the way; and
//! * gating extraction of an actionable event behind chain finality.
//!
//! All network traffic (JSON-RPC calls to the provider) happens outside this
//! crate; the functions here take the provider's answers as plain values and
//! make every decision the watcher needs, each under a verified contract.

pub mod error;
pub mod extraction;
pub mod finality;
pub mod range;
pub mod receipt;
pub mod types;
