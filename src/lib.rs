//! BLS12-381 signature verification and aggregation in the "min_pk"
//! convention: public keys are compressed G1 points (48 bytes), signatures
//! compressed G2 points (96 bytes).
//!
//! Curve arithmetic, hash-to-curve and pairings come from `blst`; this crate
//! holds the input validation, the domain separation tag and the rules that
//! turn every failure into a plain `false` or an empty buffer.

mod curve;

pub mod bls;
pub mod laws;

pub use curve::{PublicKeyPoint, SignaturePoint};

pub use bls::{
    bls12381_min_pk_aggregate, bls12381_min_pk_verify, bls12381_min_pk_verify_aggregate,
    
};
