//! One-hop X.509 issuer checking: whether one DER-encoded certificate's
//! signature was produced by another certificate's key.

use vstd::prelude::*;

verus! {

#[verifier::external_type_specification]
#[verifier::external_body]
pub struct ExX509Certificate<'a>(x509_signature::X509Certificate<'a>);

/// Whether a byte string is a well-formed DER encoding of an X.509 v3
/// certificate, as the certificate parser accepts it.
pub uninterp spec fn x509_parse_ok(der: Seq<u8>) -> bool;

/// Whether the certificate encoded by `subject_der` names the certificate
/// encoded by `issuer_der` as its issuer and carries a signature that
/// verifies under that issuer's public key. Meaningful only where both byte
/// strings parse; a function of the two byte strings alone.
pub uninterp spec fn x509_issued_by(subject_der: Seq<u8>, issuer_der: Seq<u8>) -> bool;

/// A one-hop certificate link holds exactly when both byte strings parse as
/// certificates and the subject's signature checks out under the issuer's
/// key. No validity-period, revocation or key-usage check is part of it.
pub open spec fn cert_link_valid(subject_der: Seq<u8>, issuer_der: Seq<u8>) -> bool {
    x509_parse_ok(subject_der) && x509_parse_ok(issuer_der) && x509_issued_by(
        subject_der,
        issuer_der,
    )
}

/// Bytes that do not parse as a certificate, on either side, can never form
/// a valid link: the checker answers `false` on them instead of failing.
pub proof fn lemma_malformed_cert_rejected(subject_der: Seq<u8>, issuer_der: Seq<u8>)
    requires
        !x509_parse_ok(subject_der) || !x509_parse_ok(issuer_der),
    ensures
        !cert_link_valid(subject_der, issuer_der),
{
}

/// Certificates whose issuer-signature check fails form no valid link, well
/// formed or not: the checker answers `false`, not an error.
pub proof fn lemma_issuer_mismatch_rejected(subject_der: Seq<u8>, issuer_der: Seq<u8>)
    requires
        !x509_issued_by(subject_der, issuer_der),
    ensures
        !cert_link_valid(subject_der, issuer_der),
{
}

/// A certificate parsed out of `der`, kept beside the bytes it came from.
/// Only `parse_cert` constructs one, so `cert` is always the parse of `der`.
pub struct ParsedCert<'a> {
    der: &'a [u8],
    cert: x509_signature::X509Certificate<'a>,
}

impl<'a> ParsedCert<'a> {
    /// The DER bytes this certificate was parsed from.
    pub closed spec fn spec_der(&self) -> Seq<u8> {
        self.der@
    }
}

/// Relies on `x509_signature::parse_certificate`: a deterministic DER parse
/// of an X.509 v3 certificate, `Err` exactly on input it does not accept.
#[verifier::external_body]
pub(crate) fn parse_cert<'a>(der: &'a [u8]) -> (r: Option<ParsedCert<'a>>)
    ensures
        match r {
            Some(c) => x509_parse_ok(der@) && c.spec_der() == der@,
            None => !x509_parse_ok(der@),
        },
{
    match x509_signature::parse_certificate(der) {
        Ok(cert) => Some(ParsedCert { der, cert }),
        Err(_) => None,
    }
}

/// Relies on `X509Certificate::check_issued_by`: it returns `Ok` exactly when
/// the subject certificate's issuer name equals the issuer certificate's
/// subject name and the subject's signature verifies under the issuer's key —
/// a deterministic function of the DER bytes the two certificates were parsed
/// from.
#[verifier::external_body]
pub(crate) fn check_issued_by(subject: &ParsedCert, issuer: &ParsedCert) -> (r: bool)
    ensures
        r == x509_issued_by(subject.spec_der(), issuer.spec_der()),
{
    subject.cert.check_issued_by(&issuer.cert).is_ok()
}

} // verus!
