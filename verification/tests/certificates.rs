use epassport::Epassport;
use rcgen::{CertificateParams, DistinguishedName, DnType, Issuer, KeyPair, PKCS_ECDSA_P256_SHA256};

fn ca_params(common_name: &str) -> CertificateParams {
    let mut params = CertificateParams::new(Vec::<String>::new()).unwrap();
    let mut dn = DistinguishedName::new();
    dn.push(DnType::CommonName, common_name);
    params.distinguished_name = dn;
    params
}

/// A document-signer certificate issued by a fresh certificate authority,
/// both as DER bytes.
fn issued_pair(ca_name: &str, dsc_name: &str) -> (Vec<u8>, Vec<u8>) {
    let ca_key = KeyPair::generate_for(&PKCS_ECDSA_P256_SHA256).unwrap();
    let ca_cert = ca_params(ca_name).self_signed(&ca_key).unwrap();
    let ca_der = ca_cert.der().as_ref().to_vec();
    let issuer = Issuer::new(ca_params(ca_name), ca_key);

    let dsc_key = KeyPair::generate_for(&PKCS_ECDSA_P256_SHA256).unwrap();
    let dsc_cert = ca_params(dsc_name).signed_by(&dsc_key, &issuer).unwrap();
    let dsc_der = dsc_cert.der().as_ref().to_vec();
    (dsc_der, ca_der)
}

#[test]
fn validates_genuine_issuer_link() {
    let epassport = Epassport::new();
    let (dsc, ca) = issued_pair("Example Country CSCA", "Example Country DSC");
    assert_eq!(true, epassport.validate_cert(dsc, ca));
}

#[test]
fn rejects_unrelated_issuer() {
    let epassport = Epassport::new();
    let (dsc, _ca) = issued_pair("Example Country CSCA", "Example Country DSC");
    let (_other_dsc, other_ca) = issued_pair("Other Country CSCA", "Other Country DSC");
    assert_eq!(false, epassport.validate_cert(dsc, other_ca));
}

#[test]
fn rejects_wrong_issuer_with_matching_name() {
    let epassport = Epassport::new();
    let (dsc, _ca) = issued_pair("Example Country CSCA", "Example Country DSC");
    // A second authority under the very same name: the issuer name matches,
    // but the signature was made by a different key.
    let (_other_dsc, impostor_ca) = issued_pair("Example Country CSCA", "Other DSC");
    assert_eq!(false, epassport.validate_cert(dsc, impostor_ca));
}

#[test]
fn rejects_malformed_subject_bytes() {
    let epassport = Epassport::new();
    let (_dsc, ca) = issued_pair("Example Country CSCA", "Example Country DSC");
    let garbage = vec![0x30u8, 0x03, 0x02, 0x01];
    assert_eq!(false, epassport.validate_cert(garbage, ca));
}

#[test]
fn rejects_malformed_issuer_bytes() {
    let epassport = Epassport::new();
    let (dsc, _ca) = issued_pair("Example Country CSCA", "Example Country DSC");
    let garbage = vec![0xffu8; 64];
    assert_eq!(false, epassport.validate_cert(dsc, garbage));
}

#[test]
fn rejects_empty_certificate_bytes() {
    let epassport = Epassport::new();
    let (dsc, ca) = issued_pair("Example Country CSCA", "Example Country DSC");
    assert_eq!(false, epassport.validate_cert(Vec::new(), ca));
    assert_eq!(false, epassport.validate_cert(dsc, Vec::new()));
}

#[test]
fn rejects_truncated_certificate() {
    let epassport = Epassport::new();
    let (dsc, ca) = issued_pair("Example Country CSCA", "Example Country DSC");
    let mut truncated = dsc.clone();
    truncated.truncate(truncated.len() / 2);
    assert_eq!(false, epassport.validate_cert(truncated, ca));
}

#[test]
fn validates_self_signed_authority() {
    let epassport = Epassport::new();
    let (_dsc, ca) = issued_pair("Example Country CSCA", "Example Country DSC");
    assert_eq!(true, epassport.validate_cert(ca.clone(), ca));
}
