//! Verified core of the TripplePulsar vault: the TPF2/TPF3 container formats,
//! the key schedules and AEAD framing built on outside cryptographic crates,
//! and the TPM policy blob codec.

pub mod bytes;
pub mod crypto;
pub mod crypto_laws;
pub mod format;
pub mod format_laws;
pub mod primitives;
pub mod shred;
pub mod vault;
pub mod text;
pub mod tpm;
