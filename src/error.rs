use tokio_rustls::rustls;
use vstd::prelude::*;

verus! {

/// The private key does not decode as a key of the fixed algorithm.
pub struct InvalidKey(pub ring::error::KeyRejected);

/// The trust anchors hold no certificate that can be used as a root.
pub struct InvalidTrustRoots;

/// The signing primitive failed; its detail is kept back.
pub struct SigningFailed;

/// Why credentials could not be set up or rotated.
pub enum CredentialError {
    /// The trust-anchor PEM could not be read, or yielded no usable root.
    InvalidTrustRoots(InvalidTrustRoots),
    /// The private key was rejected.
    InvalidKey(InvalidKey),
    /// The identity is not a name a server certificate can be verified for.
    InvalidName,
    /// A new certificate chain failed verification for the local identity.
    CertificateInvalid(rustls::Error),
}

} // verus!
