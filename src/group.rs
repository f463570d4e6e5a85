//! Elements of the BLS12-381 source groups `G1`, `G2` and of the scalar field
//! `Fr`, held as their canonical compressed encodings.
//!
//! The arithmetic itself is done by the arkworks crates. Each call goes through
//! one small trusted function whose result is named by an uninterpreted spec
//! function, so that the commitment logic can be verified over those names.
use ark_bls12_381::{Fr, G1Affine, G2Affine};
use ark_ec::{AffineCurve, ProjectiveCurve};
use ark_ff::{PrimeField, UniformRand};
use ark_serialize::{CanonicalDeserialize, CanonicalSerialize};
use ark_std::rand::rngs::StdRng;
use ark_std::Zero;
use vstd::prelude::*;

verus! {

/// The generator `rand::rngs::StdRng` (re-exported by ark-std), a
/// cryptographically secure generator, carried through opaque and handed to
/// `UniformRand::rand` to draw scalars.
#[verifier::external_type_specification]
#[verifier::external_body]
pub struct ExStdRng(StdRng);

/// Whether the bytes start with a valid compressed encoding of a point of
/// the prime-order subgroup of `G1`.
pub uninterp spec fn g1_valid(b: Seq<u8>) -> bool;

/// The encoding of the sum of the two encoded `G1` points.
pub uninterp spec fn g1_add_of(a: Seq<u8>, b: Seq<u8>) -> Seq<u8>;

/// The encoding of the encoded `G1` point multiplied by the scalar whose
/// little-endian bytes are `s`, read modulo the group order.
pub uninterp spec fn g1_mul_of(p: Seq<u8>, s: Seq<u8>) -> Seq<u8>;

/// The compressed encoding of the identity of `G1`: a zero coordinate with the
/// infinity flag (bit 6 of the last byte) set.
pub open spec fn g1_identity_encoding() -> Seq<u8> {
    Seq::new(48, |i: int| if i == 47 { 0x40u8 } else { 0u8 })
}

/// Relies on `CanonicalDeserialize::deserialize` for `G1Affine`: it accepts the
/// bytes exactly when they encode a point of the prime-order subgroup.
#[verifier::external_body]
fn g1_check(b: &Vec<u8>) -> (r: bool)
    ensures
        r == g1_valid(b@),
{
    G1Affine::deserialize(&b[..]).is_ok()
}

/// Relies on `Add` for `G1Affine` (the group law), with the operands and the
/// sum in compressed encoding.
#[verifier::external_body]
fn g1_add_bytes(a: &Vec<u8>, b: &Vec<u8>) -> (r: Vec<u8>)
    requires
        g1_valid(a@),
        g1_valid(b@),
    ensures
        r@ == g1_add_of(a@, b@),
        g1_valid(r@),
{
    let p = G1Affine::deserialize(&a[..]).unwrap();
    let q = G1Affine::deserialize(&b[..]).unwrap();
    let mut out = Vec::new();
    (p + q).serialize(&mut out).unwrap();
    out
}

/// Relies on `AffineCurve::mul` for `G1Affine`, with the scalar read by
/// `PrimeField::from_le_bytes_mod_order`.
#[verifier::external_body]
fn g1_mul_bytes(p: &Vec<u8>, s: &Vec<u8>) -> (r: Vec<u8>)
    requires
        g1_valid(p@),
    ensures
        r@ == g1_mul_of(p@, s@),
        g1_valid(r@),
{
    let p = G1Affine::deserialize(&p[..]).unwrap();
    let s = Fr::from_le_bytes_mod_order(&s[..]);
    let mut out = Vec::new();
    AffineCurve::mul(&p, s.into_repr()).into_affine().serialize(&mut out).unwrap();
    out
}

/// Relies on `CanonicalSerialize::serialize` for `G1Affine::zero()`: the
/// identity is written as a zero coordinate with the infinity flag set.
#[verifier::external_body]
fn g1_identity_bytes() -> (r: Vec<u8>)
    ensures
        r@ == g1_identity_encoding(),
        g1_valid(r@),
{
    let mut out = Vec::new();
    G1Affine::zero().serialize(&mut out).unwrap();
    out
}

/// A point of the prime-order subgroup of `G1`.
pub struct G1 {
    bytes: Vec<u8>,
}

impl View for G1 {
    type V = Seq<u8>;

    closed spec fn view(&self) -> Seq<u8> {
        self.bytes@
    }
}

impl G1 {
    #[verifier::type_invariant]
    spec fn inv(self) -> bool {
        g1_valid(self.bytes@)
    }

    /// Reads a point from its compressed encoding; `None` where the bytes
    /// encode no point of the subgroup.
    pub fn from_bytes(bytes: Vec<u8>) -> (r: Option<G1>)
        ensures
            r is Some <==> g1_valid(bytes@),
            r matches Some(p) ==> p@ == bytes@,
    {
        if g1_check(&bytes) {
            Some(G1 { bytes })
        } else {
            None
        }
    }

    /// The compressed encoding of the point.
    pub fn to_bytes(&self) -> (r: Vec<u8>)
        ensures
            r@ == self@,
    {
        self.bytes.clone()
    }

    pub fn identity() -> (r: G1)
        ensures
            r@ == g1_identity_encoding(),
    {
        G1 { bytes: g1_identity_bytes() }
    }

    /// A second point equal to this one.
    pub fn duplicate(&self) -> (r: G1)
        ensures
            r@ == self@,
    {
        proof {
            use_type_invariant(self);
        }
        G1 { bytes: self.bytes.clone() }
    }

    pub fn add(&self, other: &G1) -> (r: G1)
        ensures
            r@ == g1_add_of(self@, other@),
    {
        proof {
            use_type_invariant(self);
            use_type_invariant(other);
        }
        G1 { bytes: g1_add_bytes(&self.bytes, &other.bytes) }
    }

    pub fn scalar_mul(&self, s: &Scalar) -> (r: G1)
        ensures
            r@ == g1_mul_of(self@, s@),
    {
        proof {
            use_type_invariant(self);
        }
        G1 { bytes: g1_mul_bytes(&self.bytes, &s.bytes) }
    }
}

/// Whether the bytes start with a valid compressed encoding of a point of
/// the prime-order subgroup of `G2`.
pub uninterp spec fn g2_valid(b: Seq<u8>) -> bool;

/// The encoding of the sum of the two encoded `G2` points.
pub uninterp spec fn g2_add_of(a: Seq<u8>, b: Seq<u8>) -> Seq<u8>;

/// The encoding of the encoded `G2` point multiplied by the scalar whose
/// little-endian bytes are `s`, read modulo the group order.
pub uninterp spec fn g2_mul_of(p: Seq<u8>, s: Seq<u8>) -> Seq<u8>;

/// The compressed encoding of the identity of `G2`: a zero coordinate (both halves
/// of the `Fq2` element) with the infinity flag (bit 6 of the last byte) set.
pub open spec fn g2_identity_encoding() -> Seq<u8> {
    Seq::new(96, |i: int| if i == 95 { 0x40u8 } else { 0u8 })
}

/// Relies on `CanonicalDeserialize::deserialize` for `G2Affine`: it accepts the
/// bytes exactly when they encode a point of the prime-order subgroup.
#[verifier::external_body]
fn g2_check(b: &Vec<u8>) -> (r: bool)
    ensures
        r == g2_valid(b@),
{
    G2Affine::deserialize(&b[..]).is_ok()
}

/// Relies on `Add` for `G2Affine` (the group law), with the operands and the
/// sum in compressed encoding.
#[verifier::external_body]
fn g2_add_bytes(a: &Vec<u8>, b: &Vec<u8>) -> (r: Vec<u8>)
    requires
        g2_valid(a@),
        g2_valid(b@),
    ensures
        r@ == g2_add_of(a@, b@),
        g2_valid(r@),
{
    let p = G2Affine::deserialize(&a[..]).unwrap();
    let q = G2Affine::deserialize(&b[..]).unwrap();
    let mut out = Vec::new();
    (p + q).serialize(&mut out).unwrap();
    out
}

/// Relies on `AffineCurve::mul` for `G2Affine`, with the scalar read by
/// `PrimeField::from_le_bytes_mod_order`.
#[verifier::external_body]
fn g2_mul_bytes(p: &Vec<u8>, s: &Vec<u8>) -> (r: Vec<u8>)
    requires
        g2_valid(p@),
    ensures
        r@ == g2_mul_of(p@, s@),
        g2_valid(r@),
{
    let p = G2Affine::deserialize(&p[..]).unwrap();
    let s = Fr::from_le_bytes_mod_order(&s[..]);
    let mut out = Vec::new();
    AffineCurve::mul(&p, s.into_repr()).into_affine().serialize(&mut out).unwrap();
    out
}

/// Relies on `CanonicalSerialize::serialize` for `G2Affine::zero()`: the
/// identity is written as a zero coordinate with the infinity flag set.
#[verifier::external_body]
fn g2_identity_bytes() -> (r: Vec<u8>)
    ensures
        r@ == g2_identity_encoding(),
        g2_valid(r@),
{
    let mut out = Vec::new();
    G2Affine::zero().serialize(&mut out).unwrap();
    out
}

/// A point of the prime-order subgroup of `G2`.
pub struct G2 {
    bytes: Vec<u8>,
}

impl View for G2 {
    type V = Seq<u8>;

    closed spec fn view(&self) -> Seq<u8> {
        self.bytes@
    }
}

impl G2 {
    #[verifier::type_invariant]
    spec fn inv(self) -> bool {
        g2_valid(self.bytes@)
    }

    /// Reads a point from its compressed encoding; `None` where the bytes
    /// encode no point of the subgroup.
    pub fn from_bytes(bytes: Vec<u8>) -> (r: Option<G2>)
        ensures
            r is Some <==> g2_valid(bytes@),
            r matches Some(p) ==> p@ == bytes@,
    {
        if g2_check(&bytes) {
            Some(G2 { bytes })
        } else {
            None
        }
    }

    /// The compressed encoding of the point.
    pub fn to_bytes(&self) -> (r: Vec<u8>)
        ensures
            r@ == self@,
    {
        self.bytes.clone()
    }

    pub fn identity() -> (r: G2)
        ensures
            r@ == g2_identity_encoding(),
    {
        G2 { bytes: g2_identity_bytes() }
    }

    /// A second point equal to this one.
    pub fn duplicate(&self) -> (r: G2)
        ensures
            r@ == self@,
    {
        proof {
            use_type_invariant(self);
        }
        G2 { bytes: self.bytes.clone() }
    }

    pub fn add(&self, other: &G2) -> (r: G2)
        ensures
            r@ == g2_add_of(self@, other@),
    {
        proof {
            use_type_invariant(self);
            use_type_invariant(other);
        }
        G2 { bytes: g2_add_bytes(&self.bytes, &other.bytes) }
    }

    pub fn scalar_mul(&self, s: &Scalar) -> (r: G2)
        ensures
            r@ == g2_mul_of(self@, s@),
    {
        proof {
            use_type_invariant(self);
        }
        G2 { bytes: g2_mul_bytes(&self.bytes, &s.bytes) }
    }
}

/// An element of the scalar field `Fr`, held as little-endian bytes that are
/// read modulo the group order.
pub struct Scalar {
    bytes: Vec<u8>,
}

impl View for Scalar {
    type V = Seq<u8>;

    closed spec fn view(&self) -> Seq<u8> {
        self.bytes@
    }
}

/// Relies on `UniformRand::rand` for `Fr`: one uniformly drawn field element,
/// written in its canonical little-endian encoding. Nothing is promised of
/// the value drawn.
#[verifier::external_body]
fn fr_rand_bytes(rng: &mut StdRng) -> (r: Vec<u8>) {
    let s = Fr::rand(rng);
    let mut out = Vec::new();
    s.serialize(&mut out).unwrap();
    out
}

impl Scalar {
    /// The scalar whose little-endian bytes are given.
    pub fn from_le_bytes(bytes: Vec<u8>) -> (r: Scalar)
        ensures
            r@ == bytes@,
    {
        Scalar { bytes }
    }

    pub fn to_le_bytes(&self) -> (r: Vec<u8>)
        ensures
            r@ == self@,
    {
        self.bytes.clone()
    }

    /// A uniformly random scalar drawn from `rng`.
    pub fn random(rng: &mut StdRng) -> (r: Scalar) {
        Scalar { bytes: fr_rand_bytes(rng) }
    }
}

} // verus!
