use blst::min_pk::{PublicKey, SecretKey, Signature};
use walrus_bls::bls::{decode_public_key, decode_signature, domain_separation_tag, DecodeError};
use walrus_bls::{
    bls12381_min_pk_aggregate, bls12381_min_pk_verify, bls12381_min_pk_verify_aggregate,
};

fn keypair(seed: &[u8; 32]) -> (SecretKey, PublicKey) {
    let sk = SecretKey::key_gen(seed, &[]).unwrap();
    let pk = sk.sk_to_pk();
    (sk, pk)
}

fn signature(sk: &SecretKey, msg: &[u8]) -> Signature {
    sk.sign(msg, &domain_separation_tag(), &[])
}

fn three_signers(msg: &[u8]) -> (Vec<Vec<u8>>, Vec<Vec<u8>>) {
    let seeds: [&[u8; 32]; 3] = [
        b"law-check-signer-seed-number-one",
        b"law-check-signer-seed-number-two",
        b"law-check-signer-seed-number-3!!",
    ];
    let mut sigs = Vec::new();
    let mut pks = Vec::new();
    for seed in seeds.iter() {
        let (sk, pk) = keypair(seed);
        sigs.push(signature(&sk, msg).to_bytes().to_vec());
        pks.push(pk.to_bytes().to_vec());
    }
    (sigs, pks)
}

#[test]
fn domain_separation_tag_is_nul_scheme() {
    assert_eq!(domain_separation_tag(), b"BLS_SIG_BLS12381G2_XMD:SHA-256_SSWU_RO_NUL_".to_vec());
}

#[test]
fn signature_under_another_tag_does_not_verify() {
    let (sk, pk) = keypair(b"law-check-other-tag-key-seed!!!!");
    let msg = b"tagged";
    let sig = sk.sign(msg, b"BLS_SIG_BLS12381G2_XMD:SHA-256_SSWU_RO_POP_", &[]);
    assert!(!bls12381_min_pk_verify(sig.to_bytes().to_vec(), pk.to_bytes().to_vec(), msg.to_vec()));
}

#[test]
fn verify_empty_message_signed() {
    let (sk, pk) = keypair(b"law-check-empty-message-seed!!!!");
    let sig = signature(&sk, b"");
    assert!(bls12381_min_pk_verify(sig.to_bytes().to_vec(), pk.to_bytes().to_vec(), vec![]));
}

#[test]
fn verify_uncompressed_key_is_refused() {
    let (sk, pk) = keypair(b"law-check-uncompressed-key-seed!");
    let msg = b"form";
    let sig = signature(&sk, msg);
    assert_eq!(pk.serialize().len(), 96);
    assert!(!bls12381_min_pk_verify(sig.to_bytes().to_vec(), pk.serialize().to_vec(), msg.to_vec()));
}

#[test]
fn aggregate_is_order_independent() {
    let (sigs, _) = three_signers(b"order");
    let forward = bls12381_min_pk_aggregate(sigs.clone());
    let reversed = bls12381_min_pk_aggregate(vec![sigs[2].clone(), sigs[1].clone(), sigs[0].clone()]);
    let rotated = bls12381_min_pk_aggregate(vec![sigs[1].clone(), sigs[2].clone(), sigs[0].clone()]);
    assert_eq!(forward.len(), 96);
    assert_eq!(forward, reversed);
    assert_eq!(forward, rotated);
}

#[test]
fn aggregate_with_one_malformed_entry_is_empty() {
    let (sigs, _) = three_signers(b"malformed");
    assert!(bls12381_min_pk_aggregate(vec![sigs[0].clone(), vec![0u8; 10], sigs[2].clone()]).is_empty());
    assert!(bls12381_min_pk_aggregate(vec![sigs[0].clone(), vec![0u8; 96]]).is_empty());
    assert!(bls12381_min_pk_aggregate(vec![sigs[0].clone(), sigs[1][..48].to_vec()]).is_empty());
}

#[test]
fn aggregate_of_one_verifies_alone() {
    let (sk, pk) = keypair(b"law-check-single-aggregate-seed!");
    let msg = b"alone";
    let agg = bls12381_min_pk_aggregate(vec![signature(&sk, msg).to_bytes().to_vec()]);
    assert!(bls12381_min_pk_verify(agg.clone(), pk.to_bytes().to_vec(), msg.to_vec()));
    assert!(bls12381_min_pk_verify_aggregate(vec![pk.to_bytes().to_vec()], msg.to_vec(), agg));
}

#[test]
fn aggregate_signers_verify_in_any_key_order() {
    let msg = b"quorum";
    let (sigs, pks) = three_signers(msg);
    let agg = bls12381_min_pk_aggregate(sigs);
    assert!(bls12381_min_pk_verify_aggregate(pks.clone(), msg.to_vec(), agg.clone()));
    let shuffled = vec![pks[2].clone(), pks[0].clone(), pks[1].clone()];
    assert!(bls12381_min_pk_verify_aggregate(shuffled, msg.to_vec(), agg.clone()));
    assert!(!bls12381_min_pk_verify_aggregate(pks[..2].to_vec(), msg.to_vec(), agg));
}

#[test]
fn verify_aggregate_with_malformed_key_is_false() {
    let msg = b"bad key";
    let (sigs, pks) = three_signers(msg);
    let agg = bls12381_min_pk_aggregate(sigs);
    let keys = vec![pks[0].clone(), pks[1].clone(), vec![0u8; 48]];
    assert!(!bls12381_min_pk_verify_aggregate(keys, msg.to_vec(), agg.clone()));
    assert!(!bls12381_min_pk_verify_aggregate(pks, msg.to_vec(), agg[..95].to_vec()));
}

#[test]
fn walrus_flow_rejects_all_five_keys() {
    let seeds: [&[u8; 32]; 5] = [
        b"walrus-node-0-secret-key-seed!!1",
        b"walrus-node-1-secret-key-seed!!2",
        b"walrus-node-2-secret-key-seed!!3",
        b"walrus-node-3-secret-key-seed!!4",
        b"walrus-node-4-secret-key-seed!!5",
    ];
    let keys: Vec<(SecretKey, PublicKey)> = seeds.iter().map(|s| keypair(s)).collect();
    let msg = b"blob_cert_v1:blobid=abc123:epoch=42:size=1024";
    let sigs: Vec<Vec<u8>> =
        [0usize, 2, 4].iter().map(|&i| signature(&keys[i].0, msg).to_bytes().to_vec()).collect();
    let agg = bls12381_min_pk_aggregate(sigs);
    assert_eq!(agg.len(), 96);
    let subset: Vec<Vec<u8>> = [0usize, 2, 4].iter().map(|&i| keys[i].1.to_bytes().to_vec()).collect();
    assert!(bls12381_min_pk_verify_aggregate(subset, msg.to_vec(), agg.clone()));
    let all: Vec<Vec<u8>> = keys.iter().map(|k| k.1.to_bytes().to_vec()).collect();
    assert!(!bls12381_min_pk_verify_aggregate(all, msg.to_vec(), agg));
}

#[test]
fn decode_public_key_errors() {
    assert_eq!(
        decode_public_key(&vec![0u8; 32]).err(),
        Some(DecodeError::WrongLength { expected: 48, found: 32 })
    );
    // The compressed identity point: refused as a signer key.
    let mut identity = vec![0u8; 48];
    identity[0] = 0xc0;
    assert_eq!(decode_public_key(&identity).err(), Some(DecodeError::InvalidPoint));
    assert_eq!(decode_public_key(&vec![0u8; 48]).err(), Some(DecodeError::InvalidPoint));
    let (_, pk) = keypair(b"law-check-decode-public-key-seed");
    assert!(decode_public_key(&pk.to_bytes().to_vec()).is_ok());
}

#[test]
fn decode_signature_errors() {
    assert_eq!(
        decode_signature(&vec![]).err(),
        Some(DecodeError::WrongLength { expected: 96, found: 0 })
    );
    assert_eq!(decode_signature(&vec![0u8; 96]).err(), Some(DecodeError::InvalidPoint));
    let (sk, _) = keypair(b"law-check-decode-signature-seed!");
    assert!(decode_signature(&signature(&sk, b"x").to_bytes().to_vec()).is_ok());
    assert_eq!(
        decode_signature(&signature(&sk, b"x").serialize().to_vec()).err(),
        Some(DecodeError::WrongLength { expected: 96, found: 192 })
    );
}
