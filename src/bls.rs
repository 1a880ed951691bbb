//! Verification and aggregation of BLS12-381 min_pk signatures.
//!
//! Every byte buffer that enters an operation is decoded with its length
//! checked here and its point checked by the curve library, subgroup
//! included. Every failure, of decoding or of the pairing equation, ends in
//! `false` or in an empty buffer: no operation panics or reports an error.
use vstd::prelude::*;

use crate::curve::{
    aggregate_of, aggregate_points, decode_public_key_point, decode_signature_point,
    fast_aggregate_verifies, pairing_verifies, pk_accepted, pk_encodings, sig_accepted,
    sig_encodings, verify_fast_aggregate, verify_pairing, PublicKeyPoint, SignaturePoint,
};

verus! {

/// Length of a compressed G1 point, the encoding of a public key.
pub const PUBLIC_KEY_LEN: usize = 48;

/// Length of a compressed G2 point, the encoding of a signature.
pub const SIGNATURE_LEN: usize = 96;

/// The domain separation tag of the basic (NUL) scheme of RFC 9380 for
/// signatures in G2: `BLS_SIG_BLS12381G2_XMD:SHA-256_SSWU_RO_NUL_`.
pub open spec fn dst_spec() -> Seq<u8> {
    seq![
        66u8, 76, 83, 95, 83, 73, 71, 95, 66, 76, 83, 49, 50, 51, 56, 49, 71, 50, 95, 88, 77,
        68, 58, 83, 72, 65, 45, 50, 53, 54, 95, 83, 83, 87, 85, 95, 82, 79, 95, 78, 85, 76, 95,
    ]
}

/// The domain separation tag, as bytes.
pub fn domain_separation_tag() -> (r: Vec<u8>)
    ensures
        r@ == dst_spec(),
{
    let r: Vec<u8> = vec![
        66u8, 76, 83, 95, 83, 73, 71, 95, 66, 76, 83, 49, 50, 51, 56, 49, 71, 50, 95, 88, 77,
        68, 58, 83, 72, 65, 45, 50, 53, 54, 95, 83, 83, 87, 85, 95, 82, 79, 95, 78, 85, 76, 95,
    ];
    assert(r@ =~= dst_spec());
    r
}

/// Why a byte buffer is not a point.
#[derive(Debug, Clone, Copy, PartialEq, Eq, Structural)]
pub enum DecodeError {
    /// The buffer does not have the length of a compressed point.
    WrongLength { expected: usize, found: usize },
    /// The curve library refused the encoding or the point.
    InvalidPoint,
}

/// A public key: 48 bytes that decode to a non-identity point of the G1
/// subgroup.
pub open spec fn pk_well_formed(b: Seq<u8>) -> bool {
    b.len() == PUBLIC_KEY_LEN && pk_accepted(b)
}

/// A signature: 96 bytes that decode to a point of the G2 subgroup.
pub open spec fn sig_well_formed(b: Seq<u8>) -> bool {
    b.len() == SIGNATURE_LEN && sig_accepted(b)
}

/// Every buffer of the list is a public key.
pub open spec fn all_pks_well_formed(pks: Seq<Seq<u8>>) -> bool {
    forall|i: int| 0 <= i < pks.len() ==> #[trigger] pk_well_formed(pks[i])
}

/// Every buffer of the list is a signature.
pub open spec fn all_sigs_well_formed(sigs: Seq<Seq<u8>>) -> bool {
    forall|i: int| 0 <= i < sigs.len() ==> #[trigger] sig_well_formed(sigs[i])
}

/// The views of a list of byte buffers.
pub open spec fn buffers(v: Seq<Vec<u8>>) -> Seq<Seq<u8>> {
    v.map_values(|b: Vec<u8>| b@)
}

/// What `bls12381_min_pk_verify` returns.
pub open spec fn verify_spec(sig: Seq<u8>, pk: Seq<u8>, msg: Seq<u8>) -> bool {
    pk_well_formed(pk) && sig_well_formed(sig) && pairing_verifies(sig, pk, msg, dst_spec())
}

/// What `bls12381_min_pk_aggregate` returns: the compressed sum, or the
/// empty buffer for an empty list, a malformed entry or a failed sum.
pub open spec fn aggregate_spec(sigs: Seq<Seq<u8>>) -> Seq<u8> {
    if sigs.len() > 0 && all_sigs_well_formed(sigs) {
        match aggregate_of(sigs) {
            Some(v) => v,
            None => Seq::empty(),
        }
    } else {
        Seq::empty()
    }
}

/// What `bls12381_min_pk_verify_aggregate` returns.
pub open spec fn verify_aggregate_spec(pks: Seq<Seq<u8>>, msg: Seq<u8>, sig: Seq<u8>) -> bool {
    pks.len() > 0 && all_pks_well_formed(pks) && sig_well_formed(sig)
        && fast_aggregate_verifies(sig, pks, msg, dst_spec())
}

/// Decodes a public key, checking its length before its point.
pub fn decode_public_key(b: &Vec<u8>) -> (r: Result<PublicKeyPoint, DecodeError>)
    ensures
        match r {
            Ok(p) => pk_well_formed(b@) && p@ == b@,
            Err(DecodeError::WrongLength { expected, found }) => b@.len() != PUBLIC_KEY_LEN
                && expected == PUBLIC_KEY_LEN && found == b@.len(),
            Err(DecodeError::InvalidPoint) => b@.len() == PUBLIC_KEY_LEN && !pk_accepted(b@),
        },
{
    if b.len() != PUBLIC_KEY_LEN {
        return Err(DecodeError::WrongLength { expected: PUBLIC_KEY_LEN, found: b.len() });
    }
    match decode_public_key_point(b.as_slice()) {
        Ok(p) => Ok(p),
        Err(_) => Err(DecodeError::InvalidPoint),
    }
}

/// Decodes a signature, checking its length before its point.
pub fn decode_signature(b: &Vec<u8>) -> (r: Result<SignaturePoint, DecodeError>)
    ensures
        match r {
            Ok(s) => sig_well_formed(b@) && s@ == b@,
            Err(DecodeError::WrongLength { expected, found }) => b@.len() != SIGNATURE_LEN
                && expected == SIGNATURE_LEN && found == b@.len(),
            Err(DecodeError::InvalidPoint) => b@.len() == SIGNATURE_LEN && !sig_accepted(b@),
        },
{
    if b.len() != SIGNATURE_LEN {
        return Err(DecodeError::WrongLength { expected: SIGNATURE_LEN, found: b.len() });
    }
    match decode_signature_point(b.as_slice()) {
        Ok(s) => Ok(s),
        Err(_) => Err(DecodeError::InvalidPoint),
    }
}

/// Verifies one signature over `msg` against one public key. Malformed
/// input of any kind gives `false`.
pub fn bls12381_min_pk_verify(sig_bytes: Vec<u8>, pk_bytes: Vec<u8>, msg: Vec<u8>) -> (r: bool)
    ensures
        r == verify_spec(sig_bytes@, pk_bytes@, msg@),
{
    let pk = match decode_public_key(&pk_bytes) {
        Ok(pk) => pk,
        Err(_) => return false,
    };
    let sig = match decode_signature(&sig_bytes) {
        Ok(sig) => sig,
        Err(_) => return false,
    };
    let dst = domain_separation_tag();
    verify_pairing(&sig, &pk, msg.as_slice(), dst.as_slice())
}

/// Aggregates signatures by adding their points. The result is the 96-byte
/// compressed sum, or the empty buffer for an empty list, for a list with
/// any malformed entry, or where the sum fails.
pub fn bls12381_min_pk_aggregate(sigs_bytes: Vec<Vec<u8>>) -> (r: Vec<u8>)
    ensures
        r@ == aggregate_spec(buffers(sigs_bytes@)),
        r@.len() == 0 || r@.len() == SIGNATURE_LEN,
        sigs_bytes@.len() == 0 ==> r@.len() == 0,
{
    if sigs_bytes.len() == 0 {
        return Vec::new();
    }
    let ghost input = buffers(sigs_bytes@);
    let mut sigs: Vec<SignaturePoint> = Vec::new();
    let mut i: usize = 0;
    while i < sigs_bytes.len()
        invariant
            input == buffers(sigs_bytes@),
            i <= sigs_bytes@.len(),
            sigs@.len() == i,
            sig_encodings(sigs@) =~= input.subrange(0, i as int),
            forall|j: int| 0 <= j < i ==> #[trigger] sig_well_formed(input[j]),
        decreases sigs_bytes@.len() - i,
    {
        match decode_signature(&sigs_bytes[i]) {
            Ok(s) => sigs.push(s),
            Err(_) => {
                assert(!sig_well_formed(input[i as int]));
                return Vec::new();
            },
        }
        i = i + 1;
        assert(sig_encodings(sigs@) =~= input.subrange(0, i as int));
    }
    assert(input.subrange(0, i as int) =~= input);
    match aggregate_points(&sigs) {
        Some(v) => v,
        None => Vec::new(),
    }
}

/// Verifies an aggregate signature against the keys of all its signers,
/// who all signed `msg`. An empty key list, or malformed input of any kind,
/// gives `false`.
pub fn bls12381_min_pk_verify_aggregate(
    pks_bytes: Vec<Vec<u8>>,
    msg: Vec<u8>,
    agg_sig_bytes: Vec<u8>,
) -> (r: bool)
    ensures
        r == verify_aggregate_spec(buffers(pks_bytes@), msg@, agg_sig_bytes@),
{
    if pks_bytes.len() == 0 {
        return false;
    }
    let ghost input = buffers(pks_bytes@);
    let mut pks: Vec<PublicKeyPoint> = Vec::new();
    let mut i: usize = 0;
    while i < pks_bytes.len()
        invariant
            input == buffers(pks_bytes@),
            i <= pks_bytes@.len(),
            pks@.len() == i,
            pk_encodings(pks@) =~= input.subrange(0, i as int),
            forall|j: int| 0 <= j < i ==> #[trigger] pk_well_formed(input[j]),
        decreases pks_bytes@.len() - i,
    {
        match decode_public_key(&pks_bytes[i]) {
            Ok(p) => pks.push(p),
            Err(_) => {
                assert(!pk_well_formed(input[i as int]));
                return false;
            },
        }
        i = i + 1;
        assert(pk_encodings(pks@) =~= input.subrange(0, i as int));
    }
    assert(input.subrange(0, i as int) =~= input);
    let sig = match decode_signature(&agg_sig_bytes) {
        Ok(s) => s,
        Err(_) => return false,
    };
    let dst = domain_separation_tag();
    verify_fast_aggregate(&sig, &pks, msg.as_slice(), dst.as_slice())
}

} // verus!
