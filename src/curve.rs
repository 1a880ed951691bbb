//! The curve library, seen through trusted declarations.
//!
//! Each item here states what `blst` does with the bytes it is given, in
//! terms of named results over those bytes. A decoded point is only ever
//! made by `decode_public_key_point` or `decode_signature_point`, which keep
//! the exact bytes it came from beside it; the pairing and aggregation calls
//! are therefore stated over those bytes.
use vstd::prelude::*;

use blst::min_pk::{AggregateSignature, PublicKey, Signature};
use blst::BLST_ERROR;

verus! {

#[verifier::external_type_specification]
#[verifier::external_body]
pub struct ExPublicKey(blst::min_pk::PublicKey);

#[verifier::external_type_specification]
#[verifier::external_body]
pub struct ExSignature(blst::min_pk::Signature);

#[verifier::external_type_specification]
#[verifier::external_body]
pub struct ExBlstError(blst::BLST_ERROR);

/// Whether `PublicKey::key_validate` accepts these bytes: a valid encoding of
/// a G1 point that is not the identity and lies in the prime-order subgroup.
pub uninterp spec fn pk_accepted(b: Seq<u8>) -> bool;

/// Whether `Signature::sig_validate(_, false)` accepts these bytes: a valid
/// encoding of a G2 point in the prime-order subgroup.
pub uninterp spec fn sig_accepted(b: Seq<u8>) -> bool;

/// Whether `Signature::verify` succeeds on the decoded signature and key,
/// with both group checks on and no augmentation.
pub uninterp spec fn pairing_verifies(sig: Seq<u8>, pk: Seq<u8>, msg: Seq<u8>, dst: Seq<u8>) -> bool;

/// Whether `Signature::fast_aggregate_verify` succeeds on the decoded
/// signature and keys, with the signature group check on.
pub uninterp spec fn fast_aggregate_verifies(
    sig: Seq<u8>,
    pks: Seq<Seq<u8>>,
    msg: Seq<u8>,
    dst: Seq<u8>,
) -> bool;

/// The compressed sum that `AggregateSignature::aggregate` computes from the
/// decoded signatures, or `None` where it fails.
pub uninterp spec fn aggregate_of(sigs: Seq<Seq<u8>>) -> Option<Seq<u8>>;

/// A public key that `blst` accepted, together with its encoding.
pub struct PublicKeyPoint {
    point: PublicKey,
    bytes: Vec<u8>,
}

/// A signature that `blst` accepted, together with its encoding.
pub struct SignaturePoint {
    point: Signature,
    bytes: Vec<u8>,
}

impl View for PublicKeyPoint {
    type V = Seq<u8>;

    closed spec fn view(&self) -> Seq<u8> {
        self.bytes@
    }
}

impl View for SignaturePoint {
    type V = Seq<u8>;

    closed spec fn view(&self) -> Seq<u8> {
        self.bytes@
    }
}

/// The encodings of a list of public keys.
pub open spec fn pk_encodings(pks: Seq<PublicKeyPoint>) -> Seq<Seq<u8>> {
    pks.map_values(|p: PublicKeyPoint| p@)
}

/// The encodings of a list of signatures.
pub open spec fn sig_encodings(sigs: Seq<SignaturePoint>) -> Seq<Seq<u8>> {
    sigs.map_values(|s: SignaturePoint| s@)
}

/// Relies on `blst::min_pk::PublicKey::key_validate`: decodes a G1 point and
/// checks that it is not the identity and lies in the subgroup; the outcome
/// depends on the bytes alone.
#[verifier::external_body]
pub(crate) fn decode_public_key_point(b: &[u8]) -> (r: Result<PublicKeyPoint, BLST_ERROR>)
    ensures
        r is Ok <==> pk_accepted(b@),
        r matches Ok(p) ==> p@ == b@,
{
    match PublicKey::key_validate(b) {
        Ok(point) => Ok(PublicKeyPoint { point, bytes: b.to_vec() }),
        Err(e) => Err(e),
    }
}

/// Relies on `blst::min_pk::Signature::sig_validate` with the infinity check
/// off: decodes a G2 point and checks that it lies in the subgroup; the
/// outcome depends on the bytes alone.
#[verifier::external_body]
pub(crate) fn decode_signature_point(b: &[u8]) -> (r: Result<SignaturePoint, BLST_ERROR>)
    ensures
        r is Ok <==> sig_accepted(b@),
        r matches Ok(s) ==> s@ == b@,
{
    match Signature::sig_validate(b, false) {
        Ok(point) => Ok(SignaturePoint { point, bytes: b.to_vec() }),
        Err(e) => Err(e),
    }
}

/// Relies on `blst::min_pk::Signature::verify` with `sig_groupcheck` and
/// `pk_validate` on and an empty augmentation: whether the pairing equation
/// holds for the hash of `msg` under `dst`.
#[verifier::external_body]
pub(crate) fn verify_pairing(sig: &SignaturePoint, pk: &PublicKeyPoint, msg: &[u8], dst: &[u8]) -> (r: bool)
    ensures
        r == pairing_verifies(sig@, pk@, msg@, dst@),
{
    sig.point.verify(true, msg, dst, &[], &pk.point, true) == BLST_ERROR::BLST_SUCCESS
}

/// Relies on `blst::min_pk::Signature::fast_aggregate_verify` with
/// `sig_groupcheck` on: whether the signature verifies against the sum of the
/// keys for the hash of `msg` under `dst`.
#[verifier::external_body]
pub(crate) fn verify_fast_aggregate(
    sig: &SignaturePoint,
    pks: &Vec<PublicKeyPoint>,
    msg: &[u8],
    dst: &[u8],
) -> (r: bool)
    ensures
        r == fast_aggregate_verifies(sig@, pk_encodings(pks@), msg@, dst@),
{
    let refs: Vec<&PublicKey> = pks.iter().map(|p| &p.point).collect();
    sig.point.fast_aggregate_verify(true, msg, dst, &refs) == BLST_ERROR::BLST_SUCCESS
}

/// Relies on `blst::min_pk::AggregateSignature::aggregate` with the group
/// check on, and on `to_signature` and `to_bytes` to compress the sum into
/// its 96-byte form. It fails on an empty list.
#[verifier::external_body]
pub(crate) fn aggregate_points(sigs: &Vec<SignaturePoint>) -> (r: Option<Vec<u8>>)
    ensures
        match r {
            Some(v) => aggregate_of(sig_encodings(sigs@)) == Some(v@) && v@.len() == 96,
            None => aggregate_of(sig_encodings(sigs@)) is None,
        },
        sigs@.len() == 0 ==> r is None,
{
    let refs: Vec<&Signature> = sigs.iter().map(|s| &s.point).collect();
    match AggregateSignature::aggregate(&refs, true) {
        Ok(agg) => Some(agg.to_signature().to_bytes().to_vec()),
        Err(_) => None,
    }
}

} // verus!
