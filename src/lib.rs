//! Mutual-TLS identity credentials: a store that certifies and rotates the
//! local identity, the snapshots it publishes to readers, and the handshake
//! decisions (which certificate to present, which signature scheme to use)
//! made over those snapshots.

pub mod error;
pub mod params;
pub mod publish;
pub mod resolver;
pub mod signer;
pub mod store;
pub mod x509;

pub use error::{CredentialError, InvalidKey, InvalidTrustRoots};
pub use store::{watch, CredentialReceiver, Store};
