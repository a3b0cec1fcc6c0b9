//! Verification primitives for electronic travel-document trust checks:
//! public-key recovery from a recoverable secp256k1 signature, binding of a
//! signature to a claimed key, and a one-hop X.509 issuer check.

use vstd::prelude::*;

pub mod certs;
pub mod recovery;

use crate::certs::cert_link_valid;
use crate::recovery::{recovery_outcome, signature_binds, RecoveryError};

verus! {

/// Stateless service exposing the three verification operations.
pub struct Epassport {}

impl Epassport {
    /// Creates the (stateless) verification service.
    pub fn new() -> Epassport {
        Epassport {}
    }

    /// Recovers the 33-byte compressed public key whose holder produced
    /// `signature` over `message_hash`, or says exactly why no key can be
    /// recovered. Never panics: every malformed input comes back as an error.
    pub fn recover_public_key(&self, signature: [u8; 65], message_hash: [u8; 32]) -> (r: Result<
        [u8; 33],
        RecoveryError,
    >)
        ensures
            match r {
                Ok(k) => recovery_outcome(signature@, message_hash@) == Ok::<
                    Seq<u8>,
                    RecoveryError,
                >(k@),
                Err(e) => recovery_outcome(signature@, message_hash@) == Err::<
                    Seq<u8>,
                    RecoveryError,
                >(e),
            },
    {
        let rb = signature[64];
        if !(rb <= 3 || (27 <= rb && rb <= 30)) {
            return Err(RecoveryError::InvalidRecoveryId);
        }
        if !recovery::scalar_below_order(&signature, 0) || !recovery::scalar_below_order(
            &signature,
            32,
        ) {
            return Err(RecoveryError::ScalarOutOfRange);
        }
        match recovery::ecdsa_recover_call(&signature, &message_hash) {
            Some(k) => Ok(k),
            None => Err(RecoveryError::RecoveryFailed),
        }
    }

    /// Decides whether `signature` over `message_hash` was produced by the
    /// holder of `public_key`: recovery must succeed and yield exactly that
    /// key. Every failure to bind, a malformed signature included, is `false`,
    /// never a panic.
    pub fn is_valid_signature(
        &self,
        signature: [u8; 65],
        message_hash: [u8; 32],
        public_key: [u8; 33],
    ) -> (r: bool)
        ensures
            r == signature_binds(signature@, message_hash@, public_key@),
    {
        match self.recover_public_key(signature, message_hash) {
            Ok(recovered) => recovery::keys_equal(&recovered, &public_key),
            Err(_) => false,
        }
    }

    /// Decides whether the certificate in `dsc_cert_bytes` was issued by the
    /// certificate in `csca_cert_bytes`: both must parse as X.509
    /// certificates and the first's signature must verify under the second's
    /// key. Malformed bytes on either side come back as `false`, never as a
    /// panic.
    pub fn validate_cert(&self, dsc_cert_bytes: Vec<u8>, csca_cert_bytes: Vec<u8>) -> (r: bool)
        ensures
            r == cert_link_valid(dsc_cert_bytes@, csca_cert_bytes@),
    {
        let dsc = match certs::parse_cert(dsc_cert_bytes.as_slice()) {
            Some(c) => c,
            None => {
                return false;
            },
        };
        let csca = match certs::parse_cert(csca_cert_bytes.as_slice()) {
            Some(c) => c,
            None => {
                return false;
            },
        };
        certs::check_issued_by(&dsc, &csca)
    }
}

} // verus!
