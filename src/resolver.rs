use crate::params::{SIGNATURE_SCHEME, offers_fixed_scheme, offers_scheme};
use crate::signer::Key;
use crate::x509::{cert_valid_for_name, valid_for_dns_name};
use std::sync::Arc;
use vstd::prelude::*;

verus! {

/// A certificate chain, leaf first, bound to the private key it was issued for.
pub struct CertifiedIdentity {
    pub chain: Vec<Vec<u8>>,
    pub key: Key,
}

impl CertifiedIdentity {
    /// The chain as byte sequences, leaf first.
    pub open spec fn chain_view(&self) -> Seq<Seq<u8>> {
        self.chain.deep_view()
    }
}

/// Picks the certificate to present in a handshake, given one certified
/// identity.
pub struct CertResolver {
    pub identity: Arc<CertifiedIdentity>,
}

impl CertResolver {
    /// What a peer that accepts the schemes `offered` is given.
    pub open spec fn scheme_resolution(&self, offered: Seq<u16>) -> Option<Arc<CertifiedIdentity>> {
        if offers_fixed_scheme(offered) {
            Some(self.identity)
        } else {
            None
        }
    }

    /// What a server presents to a client that asks for `server_name` and
    /// accepts the schemes `offered`: nothing without a name, nothing for a
    /// name that the leaf certificate does not cover.
    pub open spec fn server_resolution(
        &self,
        server_name: Option<Seq<char>>,
        offered: Seq<u16>,
    ) -> Option<Arc<CertifiedIdentity>> {
        match server_name {
            None => None,
            Some(name) => {
                let chain = self.identity.chain_view();
                if chain.len() == 0 {
                    None
                } else if !cert_valid_for_name(chain[0], name) {
                    None
                } else {
                    self.scheme_resolution(offered)
                }
            },
        }
    }

    pub fn new(identity: Arc<CertifiedIdentity>) -> (r: CertResolver)
        ensures
            r.identity == identity,
    {
        CertResolver { identity }
    }

    /// The identity, where the fixed scheme is among those offered.
    pub fn resolve_(&self, sigschemes: &[u16]) -> (r: Option<Arc<CertifiedIdentity>>)
        ensures
            r == self.scheme_resolution(sigschemes@),
    {
        if !offers_scheme(sigschemes) {
            return None;
        }
        Some(Arc::clone(&self.identity))
    }

    /// Client-side resolution: the identity, where the fixed scheme is
    /// acceptable to the server.
    pub fn resolve_client(&self, sigschemes: &[u16]) -> (r: Option<Arc<CertifiedIdentity>>)
        ensures
            r == self.scheme_resolution(sigschemes@),
    {
        self.resolve_(sigschemes)
    }

    /// Server-side resolution for the name the client asked for, if any.
    pub fn resolve_server(&self, server_name: Option<&str>, sigschemes: &[u16]) -> (r: Option<
        Arc<CertifiedIdentity>,
    >)
        ensures
            r == self.server_resolution(
                match server_name {
                    Some(n) => Some(n@),
                    None => None,
                },
                sigschemes@,
            ),
    {
        let name = match server_name {
            Some(name) => name,
            None => {
                return None;
            },
        };
        if self.identity.chain.len() == 0 {
            return None;
        }
        let leaf = &self.identity.chain[0];
        proof {
            assert(leaf@ == self.identity.chain_view()[0]);
        }
        if !valid_for_dns_name(leaf.as_slice(), name) {
            return None;
        }
        self.resolve_(sigschemes)
    }

    /// A resolver always holds a certificate.
    pub fn has_certs(&self) -> (r: bool)
        ensures
            r,
    {
        true
    }
}

/// The credentials a snapshot is built from: none yet, or a certified identity.
pub enum Credentials {
    Uninitialized,
    Certified(CertResolver),
}

impl Credentials {
    /// The chain in use, if any.
    pub open spec fn chain(&self) -> Option<Seq<Seq<u8>>> {
        match self {
            Credentials::Uninitialized => None,
            Credentials::Certified(c) => Some(c.identity.chain_view()),
        }
    }

    pub open spec fn client_resolution(&self, offered: Seq<u16>) -> Option<Arc<CertifiedIdentity>> {
        match self {
            Credentials::Uninitialized => None,
            Credentials::Certified(c) => c.scheme_resolution(offered),
        }
    }

    pub open spec fn server_resolution(
        &self,
        server_name: Option<Seq<char>>,
        offered: Seq<u16>,
    ) -> Option<Arc<CertifiedIdentity>> {
        match self {
            Credentials::Uninitialized => None,
            Credentials::Certified(c) => c.server_resolution(server_name, offered),
        }
    }

    /// The certificate a client presents: none before an identity is certified.
    pub fn resolve_client(&self, sigschemes: &[u16]) -> (r: Option<Arc<CertifiedIdentity>>)
        ensures
            r == self.client_resolution(sigschemes@),
    {
        match self {
            Credentials::Uninitialized => None,
            Credentials::Certified(c) => c.resolve_client(sigschemes),
        }
    }

    /// The certificate a server presents: none before an identity is
    /// certified, so that every server handshake fails until then.
    pub fn resolve_server(&self, server_name: Option<&str>, sigschemes: &[u16]) -> (r: Option<
        Arc<CertifiedIdentity>,
    >)
        ensures
            r == self.server_resolution(
                match server_name {
                    Some(n) => Some(n@),
                    None => None,
                },
                sigschemes@,
            ),
    {
        match self {
            Credentials::Uninitialized => None,
            Credentials::Certified(c) => c.resolve_server(server_name, sigschemes),
        }
    }

    /// Whether a client has a certificate to offer.
    pub fn has_certs(&self) -> (r: bool)
        ensures
            r == (self.chain() is Some),
    {
        match self {
            Credentials::Uninitialized => false,
            Credentials::Certified(_) => true,
        }
    }
}

/// The scheme check depends only on which schemes are offered: two offers that
/// hold the same schemes, in any order and with any repetition, get the same
/// answer, which is the identity exactly when the fixed scheme is among them.
pub proof fn lemma_scheme_check_ignores_order(r: CertResolver, a: Seq<u16>, b: Seq<u16>)
    requires
        a.to_set() == b.to_set(),
    ensures
        r.scheme_resolution(a) == r.scheme_resolution(b),
        r.scheme_resolution(a) == (if a.contains(SIGNATURE_SCHEME) {
            Some(r.identity)
        } else {
            None
        }),
{
    assert(a.contains(SIGNATURE_SCHEME) == a.to_set().contains(SIGNATURE_SCHEME));
    assert(b.contains(SIGNATURE_SCHEME) == b.to_set().contains(SIGNATURE_SCHEME));
}

/// A server presents no certificate for a name that its leaf certificate does
/// not cover, although a certificate is loaded.
pub proof fn lemma_sni_mismatch_presents_nothing(r: CertResolver, name: Seq<char>, offered: Seq<u16>)
    requires
        r.identity.chain_view().len() > 0,
        !cert_valid_for_name(r.identity.chain_view()[0], name),
    ensures
        r.server_resolution(Some(name), offered) is None,
{
}

/// A server presents no certificate to a client that names no server,
/// whatever credentials it holds.
pub proof fn lemma_no_sni_presents_nothing(c: Credentials, offered: Seq<u16>)
    ensures
        c.server_resolution(None, offered) is None,
{
}

/// Before an identity is certified no handshake gets a certificate: a server
/// has nothing to present and a client connects without one.
pub proof fn lemma_uninitialized_presents_nothing(
    c: Credentials,
    server_name: Option<Seq<char>>,
    offered: Seq<u16>,
)
    requires
        c is Uninitialized,
    ensures
        c.server_resolution(server_name, offered) is None,
        c.client_resolution(offered) is None,
        c.chain() is None,
{
}

/// Client and server resolution read one and the same certified identity: a
/// snapshot never pairs a new client certificate with an old server one.
pub proof fn lemma_one_identity_for_both_sides(
    c: Credentials,
    server_name: Option<Seq<char>>,
    offered: Seq<u16>,
)
    ensures
        c.client_resolution(offered) matches Some(i) ==> c.chain() == Some(i.chain_view()),
        c.server_resolution(server_name, offered) matches Some(i) ==> c.chain() == Some(
            i.chain_view(),
        ),
{
}

} // verus!
