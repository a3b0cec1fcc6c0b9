//! Public-key recovery from a 65-byte recoverable secp256k1 signature and a
//! 32-byte message digest.

use vstd::prelude::*;

verus! {

/// Why public-key recovery failed for a given signature and digest.
#[derive(Clone, Copy, Debug, PartialEq, Eq, Structural)]
pub enum RecoveryError {
    /// The final signature byte does not encode one of the curve's valid
    /// recovery identifiers.
    InvalidRecoveryId,
    /// The signature's r or s component, read as a big-endian integer, is not
    /// below the curve's group order.
    ScalarOutOfRange,
    /// The curve arithmetic rejected the inputs: no public key corresponds to
    /// this signature and digest.
    RecoveryFailed,
}

/// The recovery byte is accepted either raw (0..=3) or with the conventional
/// offset of 27 added (27..=30).
pub open spec fn valid_recovery_byte(b: u8) -> bool {
    b <= 3 || (27 <= b && b <= 30)
}

/// The value of a byte sequence read as a big-endian unsigned integer.
pub open spec fn be_val(s: Seq<u8>) -> nat
    decreases s.len(),
{
    if s.len() == 0 {
        0
    } else {
        (256 * be_val(s.drop_last()) + s.last()) as nat
    }
}

/// The order of the secp256k1 group, the exclusive upper bound for the
/// signature scalars r and s.
pub open spec fn secp256k1_order() -> nat {
    0xfffffffffffffffffffffffffffffffebaaedce6af48a03bbfd25e8cd0364141nat
}

/// A 32-byte signature scalar is in range when its big-endian value is below
/// the group order.
pub open spec fn scalar_in_range(s: Seq<u8>) -> bool {
    be_val(s) < secp256k1_order()
}

/// The group order written out as 32 big-endian bytes.
pub open spec fn order_bytes() -> Seq<u8> {
    seq![
        0xffu8, 0xffu8, 0xffu8, 0xffu8, 0xffu8, 0xffu8, 0xffu8, 0xffu8,
        0xffu8, 0xffu8, 0xffu8, 0xffu8, 0xffu8, 0xffu8, 0xffu8, 0xfeu8,
        0xbau8, 0xaeu8, 0xdcu8, 0xe6u8, 0xafu8, 0x48u8, 0xa0u8, 0x3bu8,
        0xbfu8, 0xd2u8, 0x5eu8, 0x8cu8, 0xd0u8, 0x36u8, 0x41u8, 0x41u8,
    ]
}

/// The byte expansion of the group order reads back to the order itself.
proof fn lemma_order_bytes_value()
    ensures
        be_val(order_bytes()) == secp256k1_order(),
{
    reveal_with_fuel(be_val, 33);
}

/// The group order as an executable byte array.
fn order_byte_array() -> (r: [u8; 32])
    ensures
        r@ == order_bytes(),
{
    let r: [u8; 32] = [
        0xff, 0xff, 0xff, 0xff, 0xff, 0xff, 0xff, 0xff,
        0xff, 0xff, 0xff, 0xff, 0xff, 0xff, 0xff, 0xfe,
        0xba, 0xae, 0xdc, 0xe6, 0xaf, 0x48, 0xa0, 0x3b,
        0xbf, 0xd2, 0x5e, 0x8c, 0xd0, 0x36, 0x41, 0x41,
    ];
    proof {
        assert(r@ =~= order_bytes());
    }
    r
}

/// Decides whether the 32 bytes of `bytes` starting at `start` read, as a
/// big-endian integer, to a value below the group order.
pub(crate) fn scalar_below_order(bytes: &[u8; 65], start: usize) -> (r: bool)
    requires
        start + 32 <= 65,
    ensures
        r == scalar_in_range(bytes@.subrange(start as int, start as int + 32)),
{
    let ghost scalar = bytes@.subrange(start as int, start as int + 32);
    let order = order_byte_array();
    let mut i: usize = 0;
    while i < 32
        invariant
            i <= 32,
            start + 32 <= 65,
            order@ == order_bytes(),
            scalar == bytes@.subrange(start as int, start as int + 32),
            forall|j: int| 0 <= j < i ==> scalar[j] == order_bytes()[j],
        decreases 32 - i,
    {
        let sb = bytes[start + i];
        let ob = order[i];
        if sb < ob {
            proof {
                lemma_be_val_lt(scalar, order_bytes(), i as int);
                lemma_order_bytes_value();
            }
            return true;
        }
        if sb > ob {
            proof {
                lemma_be_val_lt(order_bytes(), scalar, i as int);
                lemma_order_bytes_value();
            }
            return false;
        }
        i += 1;
    }
    proof {
        assert(scalar =~= order_bytes());
        lemma_order_bytes_value();
    }
    false
}

/// Big-endian comparison of equal-length byte strings is lexicographic: if the
/// bytes agree left of position `i` and differ there in `a`'s favour, `a`
/// reads back to the smaller integer.
proof fn lemma_be_val_lt(a: Seq<u8>, b: Seq<u8>, i: int)
    requires
        a.len() == b.len(),
        0 <= i < a.len(),
        forall|j: int| 0 <= j < i ==> a[j] == b[j],
        a[i] < b[i],
    ensures
        be_val(a) < be_val(b),
    decreases a.len(),
{
    if i == a.len() - 1 {
        assert(a.drop_last() =~= b.drop_last());
    } else {
        lemma_be_val_lt(a.drop_last(), b.drop_last(), i);
        assert(a.last() <= 255);
        assert(be_val(a) == 256 * be_val(a.drop_last()) + a.last());
        assert(be_val(b) == 256 * be_val(b.drop_last()) + b.last());
    }
}

/// The compressed public key that secp256k1 recovery yields for a signature
/// and digest, or `None` where the curve arithmetic rejects them. The result
/// is a function of the two byte strings alone.
pub uninterp spec fn secp256k1_recovered_key(sig: Seq<u8>, digest: Seq<u8>) -> Option<Seq<u8>>;

/// What public-key recovery returns for a 65-byte signature and a 32-byte
/// digest: the recovery byte is checked first, then the r and s scalars, and
/// only then is the curve asked for the key.
pub open spec fn recovery_outcome(sig: Seq<u8>, digest: Seq<u8>) -> Result<Seq<u8>, RecoveryError> {
    if !valid_recovery_byte(sig[64]) {
        Err(RecoveryError::InvalidRecoveryId)
    } else if !scalar_in_range(sig.subrange(0, 32)) || !scalar_in_range(sig.subrange(32, 64)) {
        Err(RecoveryError::ScalarOutOfRange)
    } else {
        match secp256k1_recovered_key(sig, digest) {
            Some(k) => Ok(k),
            None => Err(RecoveryError::RecoveryFailed),
        }
    }
}

/// A signature binds to a claimed public key exactly when recovery succeeds
/// and yields that key.
pub open spec fn signature_binds(sig: Seq<u8>, digest: Seq<u8>, pk: Seq<u8>) -> bool {
    recovery_outcome(sig, digest) == Ok::<Seq<u8>, RecoveryError>(pk)
}

/// A signature binds to a claimed public key exactly when recovery succeeds
/// and yields that very key, and to no key at all when recovery fails for
/// any reason: a recovery error is a negative answer, never a fault.
pub proof fn lemma_binding_iff_recovery(sig: Seq<u8>, digest: Seq<u8>, pk: Seq<u8>)
    ensures
        signature_binds(sig, digest, pk) <==> (recovery_outcome(sig, digest) is Ok
            && recovery_outcome(sig, digest)->Ok_0 == pk),
        recovery_outcome(sig, digest) is Err ==> !signature_binds(sig, digest, pk),
{
}

/// Relies on `ink::env::ecdsa_recover`: secp256k1 public-key recovery, a
/// deterministic function of the signature and digest bytes. Its off-chain
/// implementation panics when the recovery byte does not decode to a valid
/// recovery identifier or when r or s is not below the group order, so those
/// inputs are excluded here and rejected by the verified caller instead.
#[verifier::external_body]
pub(crate) fn ecdsa_recover_call(signature: &[u8; 65], message_hash: &[u8; 32]) -> (r: Option<
    [u8; 33],
>)
    requires
        valid_recovery_byte(signature@[64]),
        scalar_in_range(signature@.subrange(0, 32)),
        scalar_in_range(signature@.subrange(32, 64)),
    ensures
        match r {
            Some(k) => secp256k1_recovered_key(signature@, message_hash@) == Some(k@),
            None => secp256k1_recovered_key(signature@, message_hash@) is None,
        },
{
    let mut output = [0u8; 33];
    match ink::env::ecdsa_recover(signature, message_hash, &mut output) {
        Ok(()) => Some(output),
        Err(_) => None,
    }
}

/// Decides whether two compressed public keys hold the same bytes.
pub(crate) fn keys_equal(a: &[u8; 33], b: &[u8; 33]) -> (r: bool)
    ensures
        r == (a@ == b@),
{
    let mut i: usize = 0;
    while i < 33
        invariant
            i <= 33,
            forall|j: int| 0 <= j < i ==> a@[j] == b@[j],
        decreases 33 - i,
    {
        if a[i] != b[i] {
            return false;
        }
        i += 1;
    }
    proof {
        assert(a@ =~= b@);
    }
    true
}

} // verus!
