//! A mutable set of trusted root certificates and certificate verification
//! against it, for both connection roles of mutual TLS.
//!
//! Each verification builds its verifier from a copy of the roots taken when
//! it starts, so roots added later never show up half-way through one.
use rustls::client::{ServerCertVerifier, WebPkiVerifier};
use rustls::server::{AllowAnyAuthenticatedClient, ClientCertVerifier};
use rustls::{Certificate, CertificateError, Error as TlsError, RootCertStore, ServerName};
use std::time::{Duration, SystemTime};
use vstd::prelude::*;

verus! {

#[verifier::external_type_specification]
#[verifier::external_body]
pub struct ExRootCertStore(RootCertStore);

#[verifier::external_type_specification]
#[verifier::external_body]
pub struct ExTlsError(TlsError);

/// A trust anchor as a root store keeps it: the subject's distinguished name
/// (as `OwnedTrustAnchor::subject` gives it), the subject public key info,
/// and the name constraints, if any.
pub type Anchor = (Seq<u8>, Seq<u8>, Option<Seq<u8>>);

/// The trust anchors held by a root store, in the order they were added.
pub uninterp spec fn root_anchors_of(s: RootCertStore) -> Seq<Anchor>;

/// The trust anchor that a root store makes of a DER certificate, or `None`
/// where `webpki::TrustAnchor::try_from_cert_der` cannot parse it.
pub uninterp spec fn anchor_of(der: Seq<u8>) -> Option<Anchor>;

/// What `WebPkiVerifier::verify_server_cert` objects to, if anything, when
/// anchored at `anchors`, for the DER end-entity certificate and
/// intermediates, the expected server name, and the time in whole seconds
/// since the Unix epoch.
pub uninterp spec fn server_fault(
    anchors: Seq<Anchor>,
    end_entity: Seq<u8>,
    intermediates: Seq<Seq<u8>>,
    name: Seq<char>,
    now_secs: u64,
) -> Option<CertificateFault>;

/// What `AllowAnyAuthenticatedClient::verify_client_cert` objects to, if
/// anything, when anchored at `anchors`, for the DER end-entity certificate
/// and intermediates and the time in whole seconds since the Unix epoch.
pub uninterp spec fn client_fault(
    anchors: Seq<Anchor>,
    end_entity: Seq<u8>,
    intermediates: Seq<Seq<u8>>,
    now_secs: u64,
) -> Option<CertificateFault>;

/// The views of a sequence of byte vectors.
pub open spec fn der_views(v: Seq<Vec<u8>>) -> Seq<Seq<u8>> {
    v.map_values(|c: Vec<u8>| c@)
}

/// The largest time, in seconds since the Unix epoch, that `SystemTime` holds here.
pub const MAX_SECS: u64 = 0x7fff_ffff_ffff_ffff;

/// Relies on `RootCertStore::empty`: a store without anchors.
pub assume_specification[ RootCertStore::empty ]() -> (r: RootCertStore)
    ensures
        root_anchors_of(r) == Seq::<Anchor>::empty(),
;

/// Relies on `RootCertStore::add`, which appends the anchor parsed from the
/// certificate, and fails, changing nothing, exactly where it does not parse.
#[verifier::external_body]
fn add_anchor(s: &mut RootCertStore, der: &[u8]) -> (r: bool)
    ensures
        r == anchor_of(der@) is Some,
        r ==> root_anchors_of(*final(s)) == root_anchors_of(*old(s)).push(anchor_of(der@)->Some_0),
        !r ==> root_anchors_of(*final(s)) == root_anchors_of(*old(s)),
{
    s.add(&Certificate(der.to_vec())).is_ok()
}

/// Relies on `AllowAnyAuthenticatedClient::client_auth_root_subjects`, which
/// lists the subject of every anchor of the store it was built from.
#[verifier::external_body]
fn anchor_subjects(roots: &RootCertStore) -> (r: Vec<Vec<u8>>)
    ensures
        der_views(r@) == root_anchors_of(*roots).map_values(|a: Anchor| a.0),
{
    AllowAnyAuthenticatedClient::new(roots.clone())
        .client_auth_root_subjects()
        .iter()
        .map(|d| d.as_ref().to_vec())
        .collect()
}

/// Relies on `WebPkiVerifier::verify_server_cert` over a copy of `roots`,
/// with no certificate transparency policy; a name that is neither a DNS
/// name nor an IP address (`ServerName::try_from` fails) is not valid for any
/// certificate.
#[verifier::external_body]
fn webpki_verify_server(
    roots: &RootCertStore,
    end_entity: &[u8],
    intermediates: &Vec<Vec<u8>>,
    server_name: &str,
    now_secs: u64,
) -> (r: Option<CertificateFault>)
    requires
        now_secs <= MAX_SECS,
    ensures
        r == server_fault(root_anchors_of(*roots), end_entity@, der_views(intermediates@), server_name@, now_secs),
{
    let ee = Certificate(end_entity.to_vec());
    let chain: Vec<Certificate> = intermediates.iter().map(|c| Certificate(c.clone())).collect();
    let now = SystemTime::UNIX_EPOCH + Duration::from_secs(now_secs);
    let name = match ServerName::try_from(server_name) {
        Ok(n) => n,
        Err(_) => return Some(CertificateFault::NotValidForName),
    };
    let verifier = WebPkiVerifier::new(roots.clone(), None);
    verifier.verify_server_cert(&ee, &chain, &name, &mut std::iter::empty(), &[], now).err().map(|e| fault_of(&e))
}

/// Relies on `AllowAnyAuthenticatedClient::verify_client_cert` over a copy of
/// `roots`: chain and validity period, with no name check.
#[verifier::external_body]
fn webpki_verify_client(
    roots: &RootCertStore,
    end_entity: &[u8],
    intermediates: &Vec<Vec<u8>>,
    now_secs: u64,
) -> (r: Option<CertificateFault>)
    requires
        now_secs <= MAX_SECS,
    ensures
        r == client_fault(root_anchors_of(*roots), end_entity@, der_views(intermediates@), now_secs),
{
    let ee = Certificate(end_entity.to_vec());
    let chain: Vec<Certificate> = intermediates.iter().map(|c| Certificate(c.clone())).collect();
    let now = SystemTime::UNIX_EPOCH + Duration::from_secs(now_secs);
    AllowAnyAuthenticatedClient::new(roots.clone())
        .verify_client_cert(&ee, &chain, now)
        .err()
        .map(|e| fault_of(&e))
}

/// Relies on the variants of `rustls::Error` and `rustls::CertificateError`:
/// tells the certificate errors that matter here apart from all others.
#[verifier::external_body]
fn fault_of(e: &TlsError) -> (r: CertificateFault) {
    match e {
        TlsError::InvalidCertificate(CertificateError::BadEncoding) => CertificateFault::BadEncoding,
        TlsError::InvalidCertificate(CertificateError::Expired) => CertificateFault::Expired,
        TlsError::InvalidCertificate(CertificateError::NotValidYet) => CertificateFault::NotValidYet,
        TlsError::InvalidCertificate(CertificateError::UnknownIssuer) => CertificateFault::UnknownIssuer,
        TlsError::InvalidCertificate(CertificateError::NotValidForName) => CertificateFault::NotValidForName,
        TlsError::InvalidCertificate(CertificateError::BadSignature) => CertificateFault::BadSignature,
        _ => CertificateFault::Other,
    }
}

/// What the underlying certificate validator objected to.
#[derive(PartialEq, Eq, Structural, Clone, Copy, Debug)]
pub enum CertificateFault {
    BadEncoding,
    Expired,
    NotValidYet,
    UnknownIssuer,
    NotValidForName,
    BadSignature,
    Other,
}

/// Why a presented chain was rejected.
#[derive(PartialEq, Eq, Structural, Clone, Copy, Debug)]
pub enum Rejection {
    /// The chain does not lead to a trusted root.
    UntrustedAnchor,
    /// A certificate is expired or not yet valid at the verification time.
    Expired,
    /// The end-entity certificate is not valid for the expected peer name.
    NameMismatch,
    /// A certificate is badly encoded or not signed by its issuer.
    MalformedChain,
    /// Any other reason (revocation, key usage, ...).
    Other,
}

/// The rejection reason reported for a validator fault.
pub open spec fn rejection_spec(f: CertificateFault) -> Rejection {
    match f {
        CertificateFault::UnknownIssuer => Rejection::UntrustedAnchor,
        CertificateFault::Expired | CertificateFault::NotValidYet => Rejection::Expired,
        CertificateFault::NotValidForName => Rejection::NameMismatch,
        CertificateFault::BadEncoding | CertificateFault::BadSignature => Rejection::MalformedChain,
        CertificateFault::Other => Rejection::Other,
    }
}

/// The rejection reason reported for a validator fault.
pub fn rejection_of(f: CertificateFault) -> (r: Rejection)
    ensures
        r == rejection_spec(f),
{
    match f {
        CertificateFault::UnknownIssuer => Rejection::UntrustedAnchor,
        CertificateFault::Expired | CertificateFault::NotValidYet => Rejection::Expired,
        CertificateFault::NotValidForName => Rejection::NameMismatch,
        CertificateFault::BadEncoding | CertificateFault::BadSignature => Rejection::MalformedChain,
        CertificateFault::Other => Rejection::Other,
    }
}

/// An error when adding a root.
#[derive(PartialEq, Eq, Structural, Clone, Copy, Debug)]
pub enum TrustError {
    /// The bytes do not parse as a certificate usable as a trust anchor.
    BadCertificate,
}

/// The outcome of a verification whose validator reported `fault`.
pub open spec fn verdict(fault: Option<CertificateFault>) -> Result<(), Rejection> {
    match fault {
        None => Ok(()),
        Some(f) => Err(rejection_spec(f)),
    }
}

/// A growable set of trusted root certificates.
pub struct TrustStore {
    roots: RootCertStore,
}

impl TrustStore {
    /// The trusted anchors, in the order they were added.
    pub closed spec fn anchors(&self) -> Seq<Anchor> {
        root_anchors_of(self.roots)
    }
}

impl View for TrustStore {
    /// The subjects of the trusted roots, in the order they were added.
    type V = Seq<Seq<u8>>;

    open spec fn view(&self) -> Seq<Seq<u8>> {
        self.anchors().map_values(|a: Anchor| a.0)
    }
}

impl TrustStore {
    /// A store that trusts nothing yet.
    pub fn new() -> (r: Self)
        ensures
            r.anchors() == Seq::<Anchor>::empty(),
    {
        TrustStore { roots: RootCertStore::empty() }
    }

    /// Adds the DER certificate `der` as a trusted root. It is refused, and
    /// the store stays as it was, exactly when it does not parse as a trust
    /// anchor.
    pub fn add_root(&mut self, der: &[u8]) -> (r: Result<(), TrustError>)
        ensures
            r is Ok <==> anchor_of(der@) is Some,
            r is Ok ==> final(self).anchors() == old(self).anchors().push(anchor_of(der@)->Some_0),
            r is Err ==> r == Err::<(), TrustError>(TrustError::BadCertificate)
                && final(self).anchors() == old(self).anchors(),
    {
        if add_anchor(&mut self.roots, der) {
            Ok(())
        } else {
            Err(TrustError::BadCertificate)
        }
    }

    /// The number of trusted roots.
    pub fn len(&self) -> (r: usize)
        ensures
            r == self.anchors().len(),
    {
        let subjects = anchor_subjects(&self.roots);
        assert(der_views(subjects@).len() == subjects@.len());
        assert(self.anchors().map_values(|a: Anchor| a.0).len() == self.anchors().len());
        subjects.len()
    }

    /// The distinguished names of the trusted roots, in the order they were added.
    pub fn root_subjects(&self) -> (r: Vec<Vec<u8>>)
        ensures
            der_views(r@) == self@,
    {
        anchor_subjects(&self.roots)
    }

    /// Verifies a server's chain as a client does, against the roots held
    /// now: it must lead to one of them, be valid at `now_secs` (seconds since
    /// the Unix epoch) and name `server_name`. A rejection carries the reason
    /// for what the validator objected to.
    pub fn verify_server(
        &self,
        end_entity: &[u8],
        intermediates: &Vec<Vec<u8>>,
        server_name: &str,
        now_secs: u64,
    ) -> (r: Result<(), Rejection>)
        requires
            now_secs <= MAX_SECS,
        ensures
            r == verdict(server_fault(self.anchors(), end_entity@, der_views(intermediates@), server_name@, now_secs)),
    {
        match webpki_verify_server(&self.roots, end_entity, intermediates, server_name, now_secs) {
            None => Ok(()),
            Some(f) => Err(rejection_of(f)),
        }
    }

    /// Verifies a client's chain as a server does, against the roots held
    /// now: it must lead to one of them and be valid at `now_secs`; no name is
    /// checked. A rejection carries the reason for what the validator
    /// objected to.
    pub fn verify_client(
        &self,
        end_entity: &[u8],
        intermediates: &Vec<Vec<u8>>,
        now_secs: u64,
    ) -> (r: Result<(), Rejection>)
        requires
            now_secs <= MAX_SECS,
        ensures
            r == verdict(client_fault(self.anchors(), end_entity@, der_views(intermediates@), now_secs)),
    {
        match webpki_verify_client(&self.roots, end_entity, intermediates, now_secs) {
            None => Ok(()),
            Some(f) => Err(rejection_of(f)),
        }
    }
}

} // verus!
