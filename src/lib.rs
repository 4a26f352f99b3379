//! Resolution of a human-readable payment name through a DNSSEC proof.
//!
//! The proof is parsed and its signature chain checked by `dnssec_prover`;
//! this crate checks the validity window against the clock and selects the
//! single TXT record that states a `bitcoin:` payment URI.
pub mod clock;
pub mod error;
pub mod prefix;
pub mod prover;
pub mod resolve;
pub mod select;

pub use error::ResolveError;
pub use prefix::has_bitcoin_prefix;
pub use resolve::{HrnResolution, resolve_proof, resolve_verified};
pub use select::Record;
