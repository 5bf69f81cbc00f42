use std::sync::Arc;
use tokio_rustls::rustls::client::ServerCertVerifier;
use tokio_rustls::rustls;
use vstd::prelude::*;

verus! {

#[verifier::external_type_specification]
#[verifier::external_body]
pub struct ExRootCertStore(rustls::RootCertStore);

#[verifier::external_type_specification]
#[verifier::external_body]
pub struct ExWebPkiVerifier(rustls::client::WebPkiVerifier);

#[verifier::external_type_specification]
#[verifier::external_body]
pub struct ExTlsError(rustls::Error);

/// Whether a DER end-entity certificate is valid for a DNS name, as webpki
/// decides it.
pub uninterp spec fn cert_valid_for_name(cert: Seq<u8>, name: Seq<char>) -> bool;

/// The DER certificates found in a PEM text, or `None` where it cannot be read.
pub uninterp spec fn pem_certificates(pem: Seq<char>) -> Option<Seq<Seq<u8>>>;

/// Whether a DER certificate can be taken as a trust anchor.
pub uninterp spec fn is_trust_anchor(der: Seq<u8>) -> bool;

/// Whether a string is a valid DNS name, as webpki decides it.
pub uninterp spec fn is_dns_name(name: Seq<char>) -> bool;

/// Whether rustls's web-PKI verifier, over the trust anchors among `anchors`,
/// accepts `chain` (leaf first) as a server certificate for `name` at `secs`
/// seconds after the Unix epoch: the chain reaches an anchor, every
/// certificate is within its validity period, and the leaf covers the name.
pub uninterp spec fn chain_verifies(
    anchors: Seq<Seq<u8>>,
    chain: Seq<Seq<u8>>,
    name: Seq<char>,
    secs: u64,
) -> bool;

/// How many trust anchors a root store holds.
pub uninterp spec fn root_count(roots: rustls::RootCertStore) -> nat;

/// How many of `certs` can be taken as trust anchors.
pub open spec fn anchor_count(certs: Seq<Seq<u8>>) -> nat
    decreases certs.len(),
{
    if certs.len() == 0 {
        0
    } else {
        anchor_count(certs.drop_last()) + if is_trust_anchor(certs.last()) {
            1nat
        } else {
            0nat
        }
    }
}

/// Relies on webpki's `EndEntityCert::verify_is_valid_for_subject_name`, after
/// `DnsNameRef::try_from_ascii_str` and `EndEntityCert::try_from`: both a
/// malformed name and a malformed certificate give `false`.
#[verifier::external_body]
pub(crate) fn valid_for_dns_name(cert: &[u8], name: &str) -> (r: bool)
    ensures
        r == cert_valid_for_name(cert@, name@),
{
    match webpki::DnsNameRef::try_from_ascii_str(name) {
        Ok(dns) => webpki::EndEntityCert::try_from(cert)
            .and_then(|c| c.verify_is_valid_for_subject_name(webpki::SubjectNameRef::DnsName(dns)))
            .is_ok(),
        Err(_) => false,
    }
}

/// Relies on `rustls_pemfile::certs`: the DER bodies of the PEM's certificate
/// sections, in order; its I/O error becomes `None`.
#[verifier::external_body]
pub(crate) fn pem_certs(pem: &str) -> (r: Option<Vec<Vec<u8>>>)
    ensures
        r is None <==> pem_certificates(pem@) is None,
        r matches Some(certs) ==> pem_certificates(pem@) == Some(certs.deep_view()),
{
    rustls_pemfile::certs(&mut std::io::Cursor::new(pem)).ok()
}

/// Relies on rustls's `RootCertStore::empty`: a store with no anchor.
#[verifier::external_body]
pub(crate) fn empty_roots() -> (r: rustls::RootCertStore)
    ensures
        root_count(r) == 0,
{
    rustls::RootCertStore::empty()
}

/// Relies on rustls's `RootCertStore::add_parsable_certificates`: it counts
/// the certificates that webpki takes as trust anchors (added), each of which
/// it appends to the store, and the others (skipped).
#[verifier::external_body]
pub(crate) fn add_parsable(roots: &mut rustls::RootCertStore, certs: &Vec<Vec<u8>>) -> (r: (
    usize,
    usize,
))
    ensures
        r.0 == anchor_count(certs.deep_view()),
        r.0 + r.1 == certs@.len(),
        root_count(*final(roots)) == root_count(*old(roots)) + r.0,
        r.0 == 0 <==> forall|i: int| 0 <= i < certs@.len() ==> !is_trust_anchor(#[trigger] certs@[i]@),
{
    roots.add_parsable_certificates(&certs[..])
}

/// Relies on rustls's derived `Clone` of `RootCertStore`.
pub assume_specification[ <rustls::RootCertStore as Clone>::clone ](
    roots: &rustls::RootCertStore,
) -> rustls::RootCertStore;

/// Relies on webpki's `DnsNameRef::try_from_ascii_str`: whether the string
/// is a syntactically valid DNS name.
#[verifier::external_body]
pub(crate) fn dns_name_valid(name: &str) -> (r: bool)
    ensures
        r == is_dns_name(name@),
{
    webpki::DnsNameRef::try_from_ascii_str(name).is_ok()
}

/// Relies on rustls's `WebPkiVerifier::new`, with no certificate transparency
/// policy.
#[verifier::external_body]
pub(crate) fn web_pki_verifier(roots: rustls::RootCertStore) -> (r: Arc<
    rustls::client::WebPkiVerifier,
>) {
    Arc::new(rustls::client::WebPkiVerifier::new(roots, None))
}

/// Relies on rustls's `WebPkiVerifier::verify_server_cert`, with a verifier
/// over the anchors that `add_parsable_certificates` takes from `anchors`, the
/// chain's first certificate as end entity and the others as intermediates,
/// the server name parsed by `ServerName::try_from`, no SCTs, no OCSP
/// response, at `secs` seconds after the Unix epoch. The verdict depends on
/// these alone. For a DNS name a pass includes webpki's subject-name check of
/// the first certificate (rustls's `verify_server_name`).
#[verifier::external_body]
pub(crate) fn verify_server_chain(
    anchors: &Vec<Vec<u8>>,
    chain: &Vec<Vec<u8>>,
    name: &str,
    secs: u64,
) -> (r: Result<(), rustls::Error>)
    requires
        chain@.len() >= 1,
        is_dns_name(name@),
    ensures
        r is Ok <==> chain_verifies(anchors.deep_view(), chain.deep_view(), name@, secs),
        r is Ok ==> cert_valid_for_name(chain@[0]@, name@),
{
    let mut roots = rustls::RootCertStore::empty();
    roots.add_parsable_certificates(&anchors[..]);
    let verifier = rustls::client::WebPkiVerifier::new(roots, None);
    let certs: Vec<_> = chain.iter().cloned().map(rustls::Certificate).collect();
    let now = std::time::UNIX_EPOCH.checked_add(std::time::Duration::from_secs(secs));
    let now = now.ok_or(rustls::Error::FailedToGetCurrentTime)?;
    let sn = rustls::ServerName::try_from(name).map_err(|e| rustls::Error::General(e.to_string()))?;
    verifier.verify_server_cert(&certs[0], &certs[1..], &sn, &mut std::iter::empty(), &[], now).map(|_| ())
}

} // verus!
