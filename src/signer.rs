use crate::error::{InvalidKey, SigningFailed};
use crate::params::{SIGNATURE_ALGORITHM, SIGNATURE_SCHEME, offers_fixed_scheme, offers_scheme};
use ring::signature::EcdsaKeyPair;
use std::sync::Arc;
use vstd::prelude::*;

verus! {

#[verifier::external_type_specification]
#[verifier::external_body]
pub struct ExEcdsaKeyPair(ring::signature::EcdsaKeyPair);

#[verifier::external_type_specification]
#[verifier::external_body]
pub struct ExKeyRejected(ring::error::KeyRejected);

/// Whether bytes decode as an unencrypted PKCS#8 P-256 key pair whose public
/// and private halves agree, as ring's `key_pair_from_pkcs8` decides it.
pub uninterp spec fn p256_pkcs8_decodes(pkcs8: Seq<u8>) -> bool;

/// Whether `sig` is an ASN.1 ECDSA P-256 / SHA-256 signature of `message`
/// under the uncompressed public key `public`, as ring verifies it.
pub uninterp spec fn p256_asn1_verifies(public: Seq<u8>, message: Seq<u8>, sig: Seq<u8>) -> bool;

/// Relies on ring's `EcdsaKeyPair::from_pkcs8` for P-256 with SHA-256 (ASN.1
/// signatures). It decodes the key before it draws on the system's random
/// source, so bytes that do not decode are always rejected; bytes that do may
/// still be rejected if the random source fails.
#[verifier::external_body]
fn parse_pkcs8(pkcs8: &[u8]) -> (r: Result<EcdsaKeyPair, ring::error::KeyRejected>)
    ensures
        !p256_pkcs8_decodes(pkcs8@) ==> r is Err,
{
    let rng = ring::rand::SystemRandom::new();
    EcdsaKeyPair::from_pkcs8(&ring::signature::ECDSA_P256_SHA256_ASN1_SIGNING, pkcs8, &rng)
}

/// Relies on ring's `KeyPair::public_key` of an `EcdsaKeyPair`: the public
/// key in uncompressed form.
#[verifier::external_body]
fn public_key_bytes(key: &EcdsaKeyPair) -> (r: Vec<u8>) {
    ring::signature::KeyPair::public_key(key).as_ref().to_vec()
}

/// Relies on ring's `EcdsaKeyPair::sign` with the system's random source: the
/// signature uses a random nonce, so nothing is stated of the bytes returned.
/// `None` stands for ring's `Unspecified` error.
#[verifier::external_body]
fn ring_sign(key: &EcdsaKeyPair, message: &[u8]) -> (r: Option<Vec<u8>>) {
    let rng = ring::rand::SystemRandom::new();
    key.sign(&rng, message).ok().map(|sig| sig.as_ref().to_vec())
}

/// Relies on ring's `UnparsedPublicKey::verify` with `ECDSA_P256_SHA256_ASN1`.
#[verifier::external_body]
fn ring_verify(public: &[u8], message: &[u8], sig: &[u8]) -> (r: bool)
    ensures
        r == p256_asn1_verifies(public@, message@, sig@),
{
    ring::signature::UnparsedPublicKey::new(&ring::signature::ECDSA_P256_SHA256_ASN1, public)
        .verify(message, sig)
        .is_ok()
}

/// The signing adapter: the identity's private key, which signs with the one
/// fixed scheme only, and its public key.
pub struct Key {
    key: Arc<EcdsaKeyPair>,
    public: Vec<u8>,
}

impl Key {
    /// The key pair.
    pub closed spec fn pair(&self) -> Arc<EcdsaKeyPair> {
        self.key
    }

    /// The public key, uncompressed, as read from the key pair when it was
    /// decoded.
    pub closed spec fn public_view(&self) -> Seq<u8> {
        self.public@
    }

    /// The public key, uncompressed.
    pub fn public_key(&self) -> (r: &[u8])
        ensures
            r@ == self.public_view(),
    {
        self.public.as_slice()
    }

    /// One more handle on the same key.
    pub fn share(&self) -> (r: Key)
        ensures
            r.pair() == self.pair(),
            r.public_view() == self.public_view(),
    {
        Key { key: Arc::clone(&self.key), public: self.public.clone() }
    }

    /// Decodes a PKCS#8 private key for the fixed algorithm.
    pub fn from_pkcs8(pkcs8: &[u8]) -> (r: Result<Key, InvalidKey>)
        ensures
            !p256_pkcs8_decodes(pkcs8@) ==> r is Err,
    {
        match parse_pkcs8(pkcs8) {
            Ok(key) => {
                let public = public_key_bytes(&key);
                Ok(Key { key: Arc::new(key), public })
            },
            Err(rejected) => Err(InvalidKey(rejected)),
        }
    }

    /// Offers this key as the signer exactly when the fixed scheme is among
    /// those offered.
    pub fn choose_scheme(&self, offered: &[u16]) -> (r: Option<Key>)
        ensures
            r is Some <==> offers_fixed_scheme(offered@),
            r matches Some(k) ==> k.pair() == self.pair() && k.public_view() == self.public_view(),
    {
        if !offers_scheme(offered) {
            return None;
        }
        Some(self.share())
    }

    /// The signature algorithm family of the key.
    pub fn algorithm(&self) -> (r: u8)
        ensures
            r == SIGNATURE_ALGORITHM,
    {
        SIGNATURE_ALGORITHM
    }

    /// The signature scheme that `sign` produces.
    pub fn scheme(&self) -> (r: u16)
        ensures
            r == SIGNATURE_SCHEME,
    {
        SIGNATURE_SCHEME
    }

    /// Signs `message`. A signature is handed out only once it verifies under
    /// the key's public key; a failure of the primitive is reported without
    /// its detail.
    pub fn sign(&self, message: &[u8]) -> (r: Result<Vec<u8>, SigningFailed>)
        ensures
            r matches Ok(sig) ==> p256_asn1_verifies(self.public_view(), message@, sig@),
    {
        let drawn = ring_sign(&self.key, message);
        accept_signature(self.public.as_slice(), message, drawn)
    }
}

/// What signing hands out for a signature `drawn` from the primitive (`None`
/// where it failed): the signature, if it verifies under `public`, and
/// `SigningFailed` otherwise.
pub fn accept_signature(public: &[u8], message: &[u8], drawn: Option<Vec<u8>>) -> (r: Result<
    Vec<u8>,
    SigningFailed,
>)
    ensures
        r == match drawn {
            Some(sig) => if p256_asn1_verifies(public@, message@, sig@) {
                Ok(sig)
            } else {
                Err(SigningFailed)
            },
            None => Err(SigningFailed),
        },
{
    match drawn {
        Some(signature) => {
            if ring_verify(public, message, signature.as_slice()) {
                Ok(signature)
            } else {
                Err(SigningFailed)
            }
        },
        None => Err(SigningFailed),
    }
}

} // verus!
