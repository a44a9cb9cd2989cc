//! A quantum-resistant transaction gate for a fixed-value ledger asset.
//!
//! It screens asset identifiers against a provenance denylist, wraps
//! accepted payloads in a post-quantum envelope, and lets an asset move from
//! its restricted to its open operating mode only once the ledger is active
//! enough and an automated vote has approved it. Every function here is
//! verified against its contract. The only trusted steps are the calls into
//! outside primitives: key encapsulation, signatures, hashing, random draws
//! and case folding. Each is marked as such where it stands.

pub mod adapter;
pub mod bridge;
pub mod bytemap;
pub mod consensus;
pub mod envelope;
pub mod hash;
pub mod kem;
pub mod migration;
pub mod provenance;
pub mod quantum;
pub mod readiness;
pub mod registry;
pub mod signing;
pub mod stablecoin;
pub mod symbol;
pub mod text;
pub mod transfer;
