//! Laws of the three operations, proved from their specifications.
use vstd::prelude::*;

use crate::bls::{
    aggregate_spec, pk_well_formed, sig_well_formed, verify_aggregate_spec, verify_spec,
    PUBLIC_KEY_LEN, SIGNATURE_LEN,
};

verus! {

/// A signature or a public key of the wrong length never verifies, whatever
/// the message; empty buffers in particular give `false`.
pub proof fn verify_rejects_wrong_lengths(sig: Seq<u8>, pk: Seq<u8>, msg: Seq<u8>)
    requires
        sig.len() != SIGNATURE_LEN || pk.len() != PUBLIC_KEY_LEN,
    ensures
        !verify_spec(sig, pk, msg),
{
}

/// One malformed entry makes the whole aggregation fail with the empty
/// buffer: the valid rest is never summed on its own.
pub proof fn aggregate_rejects_malformed_entry(sigs: Seq<Seq<u8>>, i: int)
    requires
        0 <= i < sigs.len(),
        !sig_well_formed(sigs[i]),
    ensures
        aggregate_spec(sigs) == Seq::<u8>::empty(),
{
}

/// An aggregate over no signers never verifies, whatever the message and
/// the signature bytes.
pub proof fn verify_aggregate_rejects_empty_key_list(msg: Seq<u8>, sig: Seq<u8>)
    ensures
        !verify_aggregate_spec(Seq::empty(), msg, sig),
{
}

/// One malformed public key in the list makes aggregate verification fail.
pub proof fn verify_aggregate_rejects_malformed_key(pks: Seq<Seq<u8>>, i: int, msg: Seq<u8>, sig: Seq<u8>)
    requires
        0 <= i < pks.len(),
        !pk_well_formed(pks[i]),
    ensures
        !verify_aggregate_spec(pks, msg, sig),
{
}

} // verus!
