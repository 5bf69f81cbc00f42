use vstd::prelude::*;

verus! {

// The one fixed set of TLS parameters. The signing algorithm, the scheme that
// the handshake negotiates and the algorithm family that the key reports
// belong together: the key is an ECDSA key on P-256, hashed with SHA-256, and
// nothing else is ever offered. Connections use TLS 1.3 only, with a single
// cipher suite.

/// The TLS code point of `ecdsa_secp256r1_sha256`, the one signature scheme used.
pub const SIGNATURE_SCHEME: u16 = 0x0403;

/// The TLS code point of the ECDSA signature algorithm family.
pub const SIGNATURE_ALGORITHM: u8 = 3;

/// The TLS code point of TLS 1.3, the one protocol version used.
pub const PROTOCOL_VERSION: u16 = 0x0304;

/// The TLS code point of `TLS13_CHACHA20_POLY1305_SHA256`, the one cipher
/// suite used.
pub const CIPHER_SUITE: u16 = 0x1303;

/// True when the peer's offered schemes include the one fixed scheme.
pub open spec fn offers_fixed_scheme(offered: Seq<u16>) -> bool {
    offered.contains(SIGNATURE_SCHEME)
}

/// Whether `offered` holds the fixed signature scheme.
pub fn offers_scheme(offered: &[u16]) -> (r: bool)
    ensures
        r == offers_fixed_scheme(offered@),
{
    let mut i: usize = 0;
    while i < offered.len()
        invariant
            0 <= i <= offered@.len(),
            forall|j: int| 0 <= j < i ==> offered@[j] != SIGNATURE_SCHEME,
        decreases offered@.len() - i,
    {
        if offered[i] == SIGNATURE_SCHEME {
            assert(offered@[i as int] == SIGNATURE_SCHEME);
            return true;
        }
        i = i + 1;
    }
    false
}

} // verus!
