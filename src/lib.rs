//! Key derivation and attestation lifecycle of a hardware root of trust.
//!
//! The key vault holds secrets that no caller can read; engines use them
//! through slot handles. Key material is modelled by the operations that
//! produced it, so that determinism, label diversification and identity
//! decorrelation are stated and proved over those terms.

pub mod disable;
pub mod drivers;
pub mod error;
pub mod fips;
pub mod hmac;
pub mod mailbox;
pub mod material;
pub mod vault;
