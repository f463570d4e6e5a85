//! The SXDH commitment groups `B1 = G1 x G1` and `B2 = G2 x G2`, the
//! commitment key, and the fixed embeddings of source-group elements and
//! scalars into the commitment groups.
use crate::group::{
    g1_add_of, g1_identity_encoding, g1_mul_of, g2_add_of, g2_identity_encoding, g2_mul_of, Scalar,
    G1, G2,
};
use vstd::prelude::*;

verus! {

/// A commitment group: a group with a scalar action, whose elements are
/// viewed as pairs of source-group encodings.
pub trait CommitmentGroup: View + Sized {
    /// The group law on views.
    spec fn sum(a: Self::V, b: Self::V) -> Self::V;

    /// The scalar action on views.
    spec fn scale(a: Self::V, s: Seq<u8>) -> Self::V;

    fn add(&self, other: &Self) -> (r: Self)
        ensures
            r@ == Self::sum(self@, other@),
    ;

    fn scalar_mul(&self, s: &Scalar) -> (r: Self)
        ensures
            r@ == Self::scale(self@, s@),
    ;
}

/// The view of an element of `B1`: the encodings of its two `G1` coordinates.
pub type B1 = (Seq<u8>, Seq<u8>);

/// Entrywise group law of `B1`.
pub open spec fn b1_add(c: B1, d: B1) -> B1 {
    (g1_add_of(c.0, d.0), g1_add_of(c.1, d.1))
}

/// Entrywise scalar multiplication of `B1`.
pub open spec fn b1_scale(c: B1, s: Seq<u8>) -> B1 {
    (g1_mul_of(c.0, s), g1_mul_of(c.1, s))
}

/// The embedding `i_1(x) = (O, x)` of `G1` into `B1`.
pub open spec fn iota1(x: Seq<u8>) -> B1 {
    (g1_identity_encoding(), x)
}

/// The embedding `i_1'(z) = z u` of scalars into `B1`, where
/// `u = u_2 + (O, P)` and `P` is the key's generator of `G1`.
pub open spec fn iota1_scalar(z: Seq<u8>, key: CRS) -> B1 {
    b1_scale(b1_add(key.u2@, iota1(key.g1_gen@)), z)
}

/// An element of the commitment group `B1`.
pub struct Com1 {
    pub fst: G1,
    pub snd: G1,
}

impl View for Com1 {
    type V = B1;

    open spec fn view(&self) -> B1 {
        (self.fst@, self.snd@)
    }
}

impl CommitmentGroup for Com1 {
    open spec fn sum(a: B1, b: B1) -> B1 {
        b1_add(a, b)
    }

    open spec fn scale(a: B1, s: Seq<u8>) -> B1 {
        b1_scale(a, s)
    }

    fn add(&self, other: &Com1) -> (r: Com1) {
        Com1 { fst: self.fst.add(&other.fst), snd: self.snd.add(&other.snd) }
    }

    fn scalar_mul(&self, s: &Scalar) -> (r: Com1) {
        Com1 { fst: self.fst.scalar_mul(s), snd: self.snd.scalar_mul(s) }
    }
}

impl Com1 {
    /// The embedding of a `G1` element, `(O, x)`.
    pub fn linear_map(x: &G1) -> (r: Com1)
        ensures
            r@ == iota1(x@),
    {
        Com1 { fst: G1::identity(), snd: x.duplicate() }
    }

    /// The embedding of each element of the list, in order.
    pub fn batch_linear_map(xs: &Vec<G1>) -> (r: Vec<Com1>)
        ensures
            r.len() == xs.len(),
            forall|i: int| 0 <= i < xs.len() ==> #[trigger] r[i]@ == iota1(xs[i]@),
    {
        let mut r: Vec<Com1> = Vec::with_capacity(xs.len());
        let mut i: usize = 0;
        while i < xs.len()
            invariant
                i <= xs.len(),
                r.len() == i,
                forall|j: int| 0 <= j < i ==> #[trigger] r[j]@ == iota1(xs[j]@),
            decreases xs.len() - i,
        {
            r.push(Com1::linear_map(&xs[i]));
            i = i + 1;
        }
        r
    }

    /// The scalar embedding of each element of the list, in order.
    pub fn batch_scalar_linear_map(zs: &Vec<Scalar>, key: &CRS) -> (r: Vec<Com1>)
        ensures
            r.len() == zs.len(),
            forall|i: int| 0 <= i < zs.len() ==> #[trigger] r[i]@ == iota1_scalar(zs[i]@, *key),
    {
        let mut r: Vec<Com1> = Vec::with_capacity(zs.len());
        let mut i: usize = 0;
        while i < zs.len()
            invariant
                i <= zs.len(),
                r.len() == i,
                forall|j: int| 0 <= j < i ==> #[trigger] r[j]@ == iota1_scalar(zs[j]@, *key),
            decreases zs.len() - i,
        {
            r.push(Com1::scalar_linear_map(&zs[i], key));
            i = i + 1;
        }
        r
    }

    /// The embedding of a scalar under the key.
    pub fn scalar_linear_map(z: &Scalar, key: &CRS) -> (r: Com1)
        ensures
            r@ == iota1_scalar(z@, *key),
    {
        key.u2.add(&Com1::linear_map(&key.g1_gen)).scalar_mul(z)
    }
}

/// The view of an element of `B2`: the encodings of its two `G2` coordinates.
pub type B2 = (Seq<u8>, Seq<u8>);

/// Entrywise group law of `B2`.
pub open spec fn b2_add(c: B2, d: B2) -> B2 {
    (g2_add_of(c.0, d.0), g2_add_of(c.1, d.1))
}

/// Entrywise scalar multiplication of `B2`.
pub open spec fn b2_scale(c: B2, s: Seq<u8>) -> B2 {
    (g2_mul_of(c.0, s), g2_mul_of(c.1, s))
}

/// The embedding `i_2(y) = (O, y)` of `G2` into `B2`.
pub open spec fn iota2(y: Seq<u8>) -> B2 {
    (g2_identity_encoding(), y)
}

/// The embedding `i_2'(z) = z v` of scalars into `B2`, where
/// `v = v_2 + (O, P)` and `P` is the key's generator of `G2`.
pub open spec fn iota2_scalar(z: Seq<u8>, key: CRS) -> B2 {
    b2_scale(b2_add(key.v2@, iota2(key.g2_gen@)), z)
}

/// An element of the commitment group `B2`.
pub struct Com2 {
    pub fst: G2,
    pub snd: G2,
}

impl View for Com2 {
    type V = B2;

    open spec fn view(&self) -> B2 {
        (self.fst@, self.snd@)
    }
}

impl CommitmentGroup for Com2 {
    open spec fn sum(a: B2, b: B2) -> B2 {
        b2_add(a, b)
    }

    open spec fn scale(a: B2, s: Seq<u8>) -> B2 {
        b2_scale(a, s)
    }

    fn add(&self, other: &Com2) -> (r: Com2) {
        Com2 { fst: self.fst.add(&other.fst), snd: self.snd.add(&other.snd) }
    }

    fn scalar_mul(&self, s: &Scalar) -> (r: Com2) {
        Com2 { fst: self.fst.scalar_mul(s), snd: self.snd.scalar_mul(s) }
    }
}

impl Com2 {
    /// The embedding of a `G2` element, `(O, y)`.
    pub fn linear_map(y: &G2) -> (r: Com2)
        ensures
            r@ == iota2(y@),
    {
        Com2 { fst: G2::identity(), snd: y.duplicate() }
    }

    /// The embedding of each element of the list, in order.
    pub fn batch_linear_map(xs: &Vec<G2>) -> (r: Vec<Com2>)
        ensures
            r.len() == xs.len(),
            forall|i: int| 0 <= i < xs.len() ==> #[trigger] r[i]@ == iota2(xs[i]@),
    {
        let mut r: Vec<Com2> = Vec::with_capacity(xs.len());
        let mut i: usize = 0;
        while i < xs.len()
            invariant
                i <= xs.len(),
                r.len() == i,
                forall|j: int| 0 <= j < i ==> #[trigger] r[j]@ == iota2(xs[j]@),
            decreases xs.len() - i,
        {
            r.push(Com2::linear_map(&xs[i]));
            i = i + 1;
        }
        r
    }

    /// The scalar embedding of each element of the list, in order.
    pub fn batch_scalar_linear_map(zs: &Vec<Scalar>, key: &CRS) -> (r: Vec<Com2>)
        ensures
            r.len() == zs.len(),
            forall|i: int| 0 <= i < zs.len() ==> #[trigger] r[i]@ == iota2_scalar(zs[i]@, *key),
    {
        let mut r: Vec<Com2> = Vec::with_capacity(zs.len());
        let mut i: usize = 0;
        while i < zs.len()
            invariant
                i <= zs.len(),
                r.len() == i,
                forall|j: int| 0 <= j < i ==> #[trigger] r[j]@ == iota2_scalar(zs[j]@, *key),
            decreases zs.len() - i,
        {
            r.push(Com2::scalar_linear_map(&zs[i], key));
            i = i + 1;
        }
        r
    }

    /// The embedding of a scalar under the key.
    pub fn scalar_linear_map(z: &Scalar, key: &CRS) -> (r: Com2)
        ensures
            r@ == iota2_scalar(z@, *key),
    {
        key.v2.add(&Com2::linear_map(&key.g2_gen)).scalar_mul(z)
    }
}

/// The public commitment key of the SXDH instantiation.
///
/// `u1`, `u2` form the first column of the key matrix over `B1` and
/// `v1`, `v2` that over `B2`; `g1_gen` and `g2_gen` are the generators of the
/// source groups that the scalar embeddings use.
pub struct CRS {
    pub u1: Com1,
    pub u2: Com1,
    pub v1: Com2,
    pub v2: Com2,
    pub g1_gen: G1,
    pub g2_gen: G2,
}

} // verus!
