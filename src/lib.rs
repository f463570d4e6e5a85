//! The commitment phase of Groth-Sahai proofs in the SXDH instantiation over
//! BLS12-381: elements of `G1`, `G2` and scalars of `Fr` are committed into the
//! commitment groups `B1 = G1 x G1` and `B2 = G2 x G2` under a public key and
//! fresh randomness.
#![allow(non_snake_case)]

pub mod com;
pub mod commit;
pub mod group;
pub mod laws;
