use crate::error::{CredentialError, InvalidTrustRoots};
use crate::resolver::{CertResolver, CertifiedIdentity, Credentials};
use crate::signer::{p256_pkcs8_decodes, Key};
use crate::x509::{
    add_parsable, anchor_count, cert_valid_for_name, dns_name_valid, empty_roots, is_dns_name, is_trust_anchor,
    pem_certificates, pem_certs, root_count, verify_server_chain, web_pki_verifier, chain_verifies,
};
use crate::publish::{channel, latest, Publisher, SnapshotReceiver};
use std::sync::Arc;
use tokio_rustls::rustls;
use vstd::prelude::*;

verus! {

#[verifier::external_type_specification]
#[verifier::external_body]
pub struct ExSystemTime(std::time::SystemTime);

/// Relies on std's `SystemTime::now` and `duration_since(UNIX_EPOCH)`: whole
/// seconds since the Unix epoch, read once from the system clock; a clock set
/// before the epoch reads as zero.
#[verifier::external_body]
fn now_secs() -> (r: u64) {
    std::time::SystemTime::now().duration_since(std::time::UNIX_EPOCH).map_or(0, |d| d.as_secs())
}

/// The trust anchors and how many of the PEM's certificates were taken.
pub struct TrustRoots {
    pub anchors: Vec<Vec<u8>>,
    pub roots: rustls::RootCertStore,
    pub added: usize,
    pub skipped: usize,
}

/// Whether the trust anchors in `pem` yield no root.
pub open spec fn trust_roots_unusable(pem: Seq<char>) -> bool {
    match pem_certificates(pem) {
        None => true,
        Some(certs) => anchor_count(certs) == 0,
    }
}

/// Reads the PEM trust anchors and keeps those that can serve as roots.
pub fn load_trust_roots(roots_pem: &str) -> (r: Result<TrustRoots, InvalidTrustRoots>)
    ensures
        r is Err <==> trust_roots_unusable(roots_pem@),
        r matches Ok(t) ==> ({
            let certs = pem_certificates(roots_pem@)->Some_0;
            &&& t.anchors.deep_view() == certs
            &&& t.added == anchor_count(certs)
            &&& root_count(t.roots) == t.added
            &&& t.skipped == certs.len() - anchor_count(certs)
        }),
{
    let certs = match pem_certs(roots_pem) {
        Some(certs) => certs,
        None => {
            return Err(InvalidTrustRoots);
        },
    };
    let mut roots = empty_roots();
    let (added, skipped) = add_parsable(&mut roots, &certs);
    if added == 0 {
        return Err(InvalidTrustRoots);
    }
    Ok(TrustRoots { anchors: certs, roots, added, skipped })
}

/// The writer side: the local identity, its key and CSR, and the credentials
/// last published to every `CredentialReceiver`.
pub struct Store {
    anchors: Vec<Vec<u8>>,
    key: Key,
    csr: Vec<u8>,
    name: String,
    tx: Publisher,
    current: Arc<Credentials>,
}

/// The reader side: a cheap handle on the newest published credentials.
#[derive(Clone)]
pub struct CredentialReceiver {
    name: String,
    roots: rustls::RootCertStore,
    verifier: Arc<rustls::client::WebPkiVerifier>,
    rx: SnapshotReceiver,
}

/// The chain `[leaf] ++ intermediates`, leaf first.
fn assemble_chain(leaf: Vec<u8>, intermediates: Vec<Vec<u8>>) -> (r: Vec<Vec<u8>>)
    ensures
        r.deep_view() == seq![leaf@] + intermediates.deep_view(),
        r@.len() >= 1,
        r@[0]@ == leaf@,
{
    let ghost expected = seq![leaf@] + intermediates.deep_view();
    let ghost tail = intermediates@;
    let mut chain: Vec<Vec<u8>> = Vec::new();
    chain.push(leaf);
    let mut rest = intermediates;
    chain.append(&mut rest);
    proof {
        assert(chain@.len() == tail.len() + 1);
        assert forall|i: int| 0 <= i < chain@.len() implies chain.deep_view()[i] == expected[i] by {
            if i > 0 {
                assert(chain@[i] == tail[i - 1]);
            }
        }
        assert(chain.deep_view() =~= expected);
    }
    chain
}

impl Store {
    /// The local identity.
    pub closed spec fn name(&self) -> Seq<char> {
        self.name@
    }

    /// The CSR configured at startup.
    pub closed spec fn csr(&self) -> Seq<u8> {
        self.csr@
    }

    /// The credentials last published.
    pub closed spec fn published(&self) -> Credentials {
        *self.current
    }

    /// The private key every certified identity is bound to.
    pub closed spec fn key(&self) -> Key {
        self.key
    }

    /// The trust anchors, as DER certificates, that new certificates are
    /// verified against.
    pub closed spec fn anchors(&self) -> Seq<Seq<u8>> {
        self.anchors.deep_view()
    }

    /// The store is well formed: its identity is a DNS name, and the
    /// credentials it holds as published are those it last sent.
    pub closed spec fn inv(&self) -> bool {
        &&& is_dns_name(self.name@)
        &&& self.tx.last_sent() == self.current
    }

    /// Returns the proxy's identity.
    pub fn dns_name(&self) -> (r: &str)
        ensures
            r@ == self.name(),
    {
        self.name.as_str()
    }

    /// Returns the CSR that was configured at startup.
    pub fn gen_certificate_signing_request(&mut self) -> (r: Vec<u8>)
        ensures
            r@ == old(self).csr(),
            *final(self) == *old(self),
    {
        self.csr.clone()
    }

    /// The credentials last published.
    pub fn current(&self) -> (r: Arc<Credentials>)
        ensures
            *r == self.published(),
    {
        Arc::clone(&self.current)
    }

    /// Verifies the chain as a server certificate for the local identity at
    /// `secs` seconds after the Unix epoch, assuming that a server certificate
    /// is verified at least as strictly as a client certificate.
    fn validate(&self, chain: &Vec<Vec<u8>>, secs: u64) -> (r: Result<(), rustls::Error>)
        requires
            self.inv(),
            chain@.len() >= 1,
        ensures
            r is Ok <==> chain_verifies(self.anchors(), chain.deep_view(), self.name(), secs),
            r is Ok ==> cert_valid_for_name(chain@[0]@, self.name()),
    {
        verify_server_chain(&self.anchors, chain, self.name.as_str(), secs)
    }

    /// Publishes credentials over `chain` where the verdict on it is a pass;
    /// leaves everything as it was otherwise.
    fn commit(&mut self, chain: Vec<Vec<u8>>, verdict: Result<(), rustls::Error>) -> (r: Result<
        (),
        CredentialError,
    >)
        requires
            old(self).inv(),
        ensures
            final(self).inv(),
            final(self).name() == old(self).name(),
            final(self).csr() == old(self).csr(),
            final(self).key() == old(self).key(),
            final(self).anchors() == old(self).anchors(),
            verdict is Ok <==> r is Ok,
            r is Ok ==> final(self).published().chain() == Some(chain.deep_view()),
            r is Ok ==> (final(self).published() matches Credentials::Certified(c)
                && c.identity.key.pair() == old(self).key().pair()
                && c.identity.key.public_view() == old(self).key().public_view()),
            r is Err ==> *final(self) == *old(self),
            r is Err ==> r matches Err(CredentialError::CertificateInvalid(_)),
            verdict matches Err(e) ==> (r matches Err(CredentialError::CertificateInvalid(e2))
                && e2 == e),
    {
        match verdict {
            Err(e) => Err(CredentialError::CertificateInvalid(e)),
            Ok(()) => {
                let key = self.key.share();
                let identity = Arc::new(CertifiedIdentity { chain, key });
                let snapshot = Arc::new(Credentials::Certified(CertResolver::new(identity)));
                self.tx.publish(Arc::clone(&snapshot));
                self.current = snapshot;
                Ok(())
            },
        }
    }

    /// Replaces the identity's certificate with `leaf` and `intermediates`, in
    /// that order, when the chain verifies for the local identity at `secs`
    /// seconds after the Unix epoch, and publishes credentials over it. On an
    /// error nothing changes.
    pub fn set_certificate_at(
        &mut self,
        leaf: Vec<u8>,
        intermediates: Vec<Vec<u8>>,
        secs: u64,
    ) -> (r: Result<(), CredentialError>)
        requires
            old(self).inv(),
        ensures
            final(self).inv(),
            final(self).name() == old(self).name(),
            final(self).csr() == old(self).csr(),
            final(self).key() == old(self).key(),
            final(self).anchors() == old(self).anchors(),
            r is Ok <==> chain_verifies(
                old(self).anchors(),
                seq![leaf@] + intermediates.deep_view(),
                old(self).name(),
                secs,
            ),
            r is Ok ==> cert_valid_for_name(leaf@, old(self).name()),
            r is Ok ==> final(self).published().chain() == Some(
                seq![leaf@] + intermediates.deep_view(),
            ),
            r is Ok ==> (final(self).published() matches Credentials::Certified(c)
                && c.identity.key.pair() == old(self).key().pair()
                && c.identity.key.public_view() == old(self).key().public_view()),
            r is Err ==> *final(self) == *old(self),
            r is Err ==> r matches Err(CredentialError::CertificateInvalid(_)),
    {
        let chain = assemble_chain(leaf, intermediates);
        let verdict = self.validate(&chain, secs);
        self.commit(chain, verdict)
    }

    /// Replaces the identity's certificate as `set_certificate_at` does, at
    /// the present time by the system clock.
    pub fn set_certificate(
        &mut self,
        leaf: Vec<u8>,
        intermediates: Vec<Vec<u8>>,
        _expiry: std::time::SystemTime,
    ) -> (r: Result<(), CredentialError>)
        requires
            old(self).inv(),
        ensures
            final(self).inv(),
            final(self).name() == old(self).name(),
            final(self).csr() == old(self).csr(),
            final(self).key() == old(self).key(),
            final(self).anchors() == old(self).anchors(),
            r is Ok ==> exists|secs: u64|
                chain_verifies(
                    old(self).anchors(),
                    seq![leaf@] + intermediates.deep_view(),
                    old(self).name(),
                    secs,
                ),
            r is Ok ==> cert_valid_for_name(leaf@, old(self).name()),
            r is Ok ==> final(self).published().chain() == Some(
                seq![leaf@] + intermediates.deep_view(),
            ),
            r is Ok ==> (final(self).published() matches Credentials::Certified(c)
                && c.identity.key.pair() == old(self).key().pair()
                && c.identity.key.public_view() == old(self).key().public_view()),
            r is Err ==> *final(self) == *old(self),
            r is Err ==> r matches Err(CredentialError::CertificateInvalid(_)),
    {
        let secs = now_secs();
        self.set_certificate_at(leaf, intermediates, secs)
    }
}

impl CredentialReceiver {
    /// The local identity.
    pub closed spec fn name(&self) -> Seq<char> {
        self.name@
    }

    /// The verifier for server certificates.
    pub closed spec fn cert_verifier(&self) -> Arc<rustls::client::WebPkiVerifier> {
        self.verifier
    }

    /// The trust anchors, as loaded.
    pub closed spec fn roots_spec(&self) -> rustls::RootCertStore {
        self.roots
    }

    /// Returns the proxy's identity.
    pub fn identity_name(&self) -> (r: &str)
        ensures
            r@ == self.name(),
    {
        self.name.as_str()
    }

    /// The newest published credentials. The channel is written by the store
    /// on another thread, so nothing is stated of which snapshot this is.
    pub fn credentials(&self) -> Arc<Credentials> {
        latest(&self.rx)
    }

    /// The trust anchors that peers are verified against.
    pub fn roots(&self) -> (r: &rustls::RootCertStore)
        ensures
            *r == self.roots_spec(),
    {
        &self.roots
    }

    /// The verifier for server certificates over the trust anchors.
    pub fn server_cert_verifier(&self) -> (r: &Arc<rustls::client::WebPkiVerifier>)
        ensures
            *r == self.cert_verifier(),
    {
        &self.verifier
    }
}

/// Completes setup once the trust anchors are loaded and the key is parsed:
/// fails exactly when `identity` is not a DNS name, and otherwise opens the
/// channel with a first snapshot that holds no certified identity.
pub fn finish_watch(
    identity: String,
    anchors: Vec<Vec<u8>>,
    roots: rustls::RootCertStore,
    key: Key,
    csr: &[u8],
) -> (r: Result<(Store, CredentialReceiver), CredentialError>)
    ensures
        r is Err <==> !is_dns_name(identity@),
        r is Err ==> r matches Err(CredentialError::InvalidName),
        r matches Ok((store, rx)) ==> {
            &&& store.inv()
            &&& store.name() == identity@
            &&& store.csr() == csr@
            &&& store.key() == key
            &&& store.anchors() == anchors.deep_view()
            &&& store.published() is Uninitialized
            &&& rx.name() == identity@
            &&& rx.roots_spec() == roots
        },
{
    if !dns_name_valid(identity.as_str()) {
        return Err(CredentialError::InvalidName);
    }
    let verifier = web_pki_verifier(roots.clone());
    let initial = Arc::new(Credentials::Uninitialized);
    let (tx, rx) = channel(Arc::clone(&initial));
    let receiver = CredentialReceiver { name: identity.clone(), roots, verifier, rx };
    let mut csr_bytes: Vec<u8> = Vec::new();
    csr_bytes.extend_from_slice(csr);
    let store = Store { anchors, key, csr: csr_bytes, name: identity, tx, current: initial };
    Ok((store, receiver))
}

/// Sets up the credentials of `identity`: trust anchors from `roots_pem`, the
/// private key from `key_pkcs8`, and the fixed `csr`. The first snapshot holds
/// no certified identity: clients connect anonymously and every server
/// handshake fails until a certificate is set.
pub fn watch(identity: String, roots_pem: &str, key_pkcs8: &[u8], csr: &[u8]) -> (r: Result<
    (Store, CredentialReceiver),
    CredentialError,
>)
    ensures
        (r matches Err(CredentialError::InvalidTrustRoots(_))) <==> trust_roots_unusable(
            roots_pem@,
        ),
        !trust_roots_unusable(roots_pem@) && !p256_pkcs8_decodes(key_pkcs8@) ==> (r matches Err(
            CredentialError::InvalidKey(_),
        )),
        (r matches Err(CredentialError::InvalidName)) <==> !trust_roots_unusable(roots_pem@)
            && !is_dns_name(identity@) && !(r matches Err(CredentialError::InvalidKey(_))),
        (r matches Err(CredentialError::InvalidKey(_))) ==> !trust_roots_unusable(roots_pem@),
        r is Err ==> (r matches Err(CredentialError::InvalidTrustRoots(_)))
            || (r matches Err(CredentialError::InvalidKey(_)))
            || (r matches Err(CredentialError::InvalidName)),
        r matches Ok((store, rx)) ==> {
            &&& store.inv()
            &&& store.name() == identity@
            &&& store.csr() == csr@
            &&& store.anchors() == pem_certificates(roots_pem@)->Some_0
            &&& store.published() is Uninitialized
            &&& rx.name() == identity@
            &&& root_count(rx.roots_spec()) == anchor_count(
                pem_certificates(roots_pem@)->Some_0,
            )
        },
{
    let loaded = match load_trust_roots(roots_pem) {
        Ok(t) => t,
        Err(e) => {
            return Err(CredentialError::InvalidTrustRoots(e));
        },
    };
    let key = match Key::from_pkcs8(key_pkcs8) {
        Ok(key) => key,
        Err(e) => {
            return Err(CredentialError::InvalidKey(e));
        },
    };
    finish_watch(identity, loaded.anchors, loaded.roots, key, csr)
}

/// No more roots are taken from a bundle than it holds certificates, so the
/// skipped count is never negative; and none is taken exactly when no
/// certificate of the bundle can serve as a trust anchor.
pub proof fn lemma_anchor_count_bounded(certs: Seq<Seq<u8>>)
    ensures
        anchor_count(certs) <= certs.len(),
        anchor_count(certs) == 0 <==> forall|i: int|
            0 <= i < certs.len() ==> !is_trust_anchor(#[trigger] certs[i]),
    decreases certs.len(),
{
    if certs.len() > 0 {
        let init = certs.drop_last();
        lemma_anchor_count_bounded(init);
        assert forall|i: int| 0 <= i < init.len() implies init[i] == certs[i] by {}
        if anchor_count(certs) == 0 {
            assert forall|i: int| 0 <= i < certs.len() implies !is_trust_anchor(#[trigger] certs[i]) by {
                if i < init.len() {
                    assert(init[i] == certs[i]);
                }
            }
        }
        if forall|i: int| 0 <= i < certs.len() ==> !is_trust_anchor(#[trigger] certs[i]) {
            assert(!is_trust_anchor(certs[certs.len() - 1]));
            assert forall|i: int| 0 <= i < init.len() implies !is_trust_anchor(#[trigger] init[i]) by {
                assert(init[i] == certs[i]);
            }
        }
    }
}

} // verus!
