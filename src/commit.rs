//! Commit from the scalar field or from the source groups `G1`, `G2` into the
//! Groth-Sahai commitment groups `B1`, `B2` of the SXDH instantiation.
//!
//! Both sides run the same routines, generic over the commitment group and
//! given the embedded values and the key entries of their side. Each public
//! operation comes in two forms: one that takes the randomness as an argument
//! and is exact, and one that draws fresh randomness from a cryptographically
//! secure generator and then commits with it.
use crate::com::{iota1, iota1_scalar, iota2, iota2_scalar, Com1, Com2, CommitmentGroup, B1, B2, CRS};
use crate::group::{Scalar, G1, G2};
use ark_std::rand::rngs::StdRng;
use vstd::prelude::*;

verus! {

// Commitment algebra, generic over the commitment group.

/// The randomization term `r1 k1 + r2 k2`.
pub open spec fn rand_term<C: CommitmentGroup>(k1: C::V, k2: C::V, r1: Seq<u8>, r2: Seq<u8>) -> C::V {
    C::sum(C::scale(k1, r1), C::scale(k2, r2))
}

/// A commitment with two randomizers, `e + (r1 k1 + r2 k2)`, of an embedded
/// value `e`.
pub open spec fn com_two<C: CommitmentGroup>(
    e: C::V,
    k1: C::V,
    k2: C::V,
    r1: Seq<u8>,
    r2: Seq<u8>,
) -> C::V {
    C::sum(e, rand_term::<C>(k1, k2, r1, r2))
}

/// A commitment with one randomizer, `e + r k1`, of an embedded value `e`.
pub open spec fn com_one<C: CommitmentGroup>(e: C::V, k1: C::V, r: Seq<u8>) -> C::V {
    C::sum(e, C::scale(k1, r))
}

/// Entrywise sum of two columns.
pub open spec fn column_add<C: CommitmentGroup>(a: Seq<C::V>, b: Seq<C::V>) -> Seq<C::V> {
    Seq::new(a.len(), |i: int| C::sum(a[i], b[i]))
}

/// The column `R k` of randomization terms: the product of an `m x 2` scalar
/// matrix, given by its rows, with the key column `(k1, k2)`.
pub open spec fn key_mul<C: CommitmentGroup>(
    rand: Seq<(Seq<u8>, Seq<u8>)>,
    k1: C::V,
    k2: C::V,
) -> Seq<C::V> {
    Seq::new(rand.len(), |i: int| rand_term::<C>(k1, k2, rand[i].0, rand[i].1))
}

/// The column `r k1`: an `m x 1` scalar column times the key entry `k1`.
pub open spec fn key_scale<C: CommitmentGroup>(rand: Seq<Seq<u8>>, k1: C::V) -> Seq<C::V> {
    Seq::new(rand.len(), |i: int| C::scale(k1, rand[i]))
}

/// A batch commitment `E + R k` in matrix form, `E` the column of embedded
/// values.
pub open spec fn batch_two<C: CommitmentGroup>(
    es: Seq<C::V>,
    k1: C::V,
    k2: C::V,
    rand: Seq<(Seq<u8>, Seq<u8>)>,
) -> Seq<C::V> {
    column_add::<C>(es, key_mul::<C>(rand, k1, k2))
}

/// A batch commitment `E + r k1` in matrix form.
pub open spec fn batch_one<C: CommitmentGroup>(es: Seq<C::V>, k1: C::V, rand: Seq<Seq<u8>>) -> Seq<
    C::V,
> {
    column_add::<C>(es, key_scale::<C>(rand, k1))
}

/// The views of the rows of an `m x 2` scalar matrix.
pub open spec fn rows_view(rand: Seq<(Scalar, Scalar)>) -> Seq<(Seq<u8>, Seq<u8>)> {
    rand.map_values(|p: (Scalar, Scalar)| (p.0@, p.1@))
}

/// The views of an `m x 1` scalar column.
pub open spec fn column_view(rand: Seq<Scalar>) -> Seq<Seq<u8>> {
    rand.map_values(|r: Scalar| r@)
}

/// `e + (r1 k1 + r2 k2)`.
fn commit_two<C: CommitmentGroup>(e: &C, k1: &C, k2: &C, r1: &Scalar, r2: &Scalar) -> (c: C)
    ensures
        c@ == com_two::<C>(e@, k1@, k2@, r1@, r2@),
{
    let term = k1.scalar_mul(r1).add(&k2.scalar_mul(r2));
    e.add(&term)
}

/// `e + r k1`.
fn commit_one<C: CommitmentGroup>(e: &C, k1: &C, r: &Scalar) -> (c: C)
    ensures
        c@ == com_one::<C>(e@, k1@, r@),
{
    e.add(&k1.scalar_mul(r))
}

/// The column `R k`, one randomization term for each row of `R`.
fn key_left_mul<C: CommitmentGroup>(rand: &Vec<(Scalar, Scalar)>, k1: &C, k2: &C) -> (ru: Vec<C>)
    ensures
        ru.len() == rand.len(),
        ru@.map_values(|c: C| c@) == key_mul::<C>(rows_view(rand@), k1@, k2@),
{
    let mut ru: Vec<C> = Vec::with_capacity(rand.len());
    let mut i: usize = 0;
    while i < rand.len()
        invariant
            i <= rand.len(),
            ru.len() == i,
            forall|j: int|
                0 <= j < i ==> #[trigger] ru[j]@ == rand_term::<C>(k1@, k2@, rand[j].0@, rand[j].1@),
        decreases rand.len() - i,
    {
        let row = &rand[i];
        ru.push(k1.scalar_mul(&row.0).add(&k2.scalar_mul(&row.1)));
        i = i + 1;
    }
    assert(ru@.map_values(|c: C| c@) =~= key_mul::<C>(rows_view(rand@), k1@, k2@));
    ru
}

/// The column `r k1`.
fn key_scale_column<C: CommitmentGroup>(rand: &Vec<Scalar>, k1: &C) -> (ru: Vec<C>)
    ensures
        ru.len() == rand.len(),
        ru@.map_values(|c: C| c@) == key_scale::<C>(column_view(rand@), k1@),
{
    let mut ru: Vec<C> = Vec::with_capacity(rand.len());
    let mut i: usize = 0;
    while i < rand.len()
        invariant
            i <= rand.len(),
            ru.len() == i,
            forall|j: int| 0 <= j < i ==> #[trigger] ru[j]@ == C::scale(k1@, rand[j]@),
        decreases rand.len() - i,
    {
        ru.push(k1.scalar_mul(&rand[i]));
        i = i + 1;
    }
    assert(ru@.map_values(|c: C| c@) =~= key_scale::<C>(column_view(rand@), k1@));
    ru
}

/// Entrywise sum of two columns of equal height.
fn add_columns<C: CommitmentGroup>(a: &Vec<C>, b: &Vec<C>) -> (c: Vec<C>)
    requires
        a.len() == b.len(),
    ensures
        c.len() == a.len(),
        c@.map_values(|x: C| x@) == column_add::<C>(
            a@.map_values(|x: C| x@),
            b@.map_values(|x: C| x@),
        ),
{
    let mut c: Vec<C> = Vec::with_capacity(a.len());
    let mut i: usize = 0;
    while i < a.len()
        invariant
            i <= a.len(),
            a.len() == b.len(),
            c.len() == i,
            forall|j: int| 0 <= j < i ==> #[trigger] c[j]@ == C::sum(a[j]@, b[j]@),
        decreases a.len() - i,
    {
        c.push(a[i].add(&b[i]));
        i = i + 1;
    }
    assert(c@.map_values(|x: C| x@) =~= column_add::<C>(
        a@.map_values(|x: C| x@),
        b@.map_values(|x: C| x@),
    ));
    c
}

/// `E + R k` for a column `E` of embedded values.
fn batch_commit_two<C: CommitmentGroup>(
    es: &Vec<C>,
    k1: &C,
    k2: &C,
    rand: &Vec<(Scalar, Scalar)>,
) -> (coms: Vec<C>)
    requires
        rand.len() == es.len(),
    ensures
        coms.len() == es.len(),
        coms@.map_values(|c: C| c@) == batch_two::<C>(
            es@.map_values(|c: C| c@),
            k1@,
            k2@,
            rows_view(rand@),
        ),
{
    let ru = key_left_mul(rand, k1, k2);
    add_columns(es, &ru)
}

/// `E + r k1` for a column `E` of embedded values.
fn batch_commit_one<C: CommitmentGroup>(es: &Vec<C>, k1: &C, rand: &Vec<Scalar>) -> (coms: Vec<C>)
    requires
        rand.len() == es.len(),
    ensures
        coms.len() == es.len(),
        coms@.map_values(|c: C| c@) == batch_one::<C>(
            es@.map_values(|c: C| c@),
            k1@,
            column_view(rand@),
        ),
{
    let ru = key_scale_column(rand, k1);
    add_columns(es, &ru)
}

/// Draws an `m x 2` matrix of fresh random scalars.
fn random_rows(m: usize, rng: &mut StdRng) -> (rand: Vec<(Scalar, Scalar)>)
    ensures
        rand.len() == m,
{
    let mut rand: Vec<(Scalar, Scalar)> = Vec::with_capacity(m);
    let mut i: usize = 0;
    while i < m
        invariant
            i <= m,
            rand.len() == i,
        decreases m - i,
    {
        let r1 = Scalar::random(rng);
        let r2 = Scalar::random(rng);
        rand.push((r1, r2));
        i = i + 1;
    }
    rand
}

/// Draws an `m x 1` column of fresh random scalars.
fn random_column(m: usize, rng: &mut StdRng) -> (rand: Vec<Scalar>)
    ensures
        rand.len() == m,
{
    let mut rand: Vec<Scalar> = Vec::with_capacity(m);
    let mut i: usize = 0;
    while i < m
        invariant
            i <= m,
            rand.len() == i,
        decreases m - i,
    {
        rand.push(Scalar::random(rng));
        i = i + 1;
    }
    rand
}

// Side 1: commitments into `B1`, under the key entries `u1`, `u2`.

/// The commitment `i_1(x) + (r1 u1 + r2 u2)` of a `G1` element.
pub open spec fn com_g1(x: Seq<u8>, key: CRS, r1: Seq<u8>, r2: Seq<u8>) -> B1 {
    com_two::<Com1>(iota1(x), key.u1@, key.u2@, r1, r2)
}

/// The commitment `i_1'(z) + r u1` of a scalar.
pub open spec fn com_scalar_b1(z: Seq<u8>, key: CRS, r: Seq<u8>) -> B1 {
    com_one::<Com1>(iota1_scalar(z, key), key.u1@, r)
}

/// `c` is a commitment of the `G1` element `x` under `key`, for some
/// randomness.
pub open spec fn is_com_g1(c: B1, x: Seq<u8>, key: CRS) -> bool {
    exists|r1: Seq<u8>, r2: Seq<u8>| c == com_g1(x, key, r1, r2)
}

/// `c` is a commitment of the scalar `z` in `B1` under `key`, for some
/// randomness.
pub open spec fn is_com_scalar_b1(c: B1, z: Seq<u8>, key: CRS) -> bool {
    exists|r: Seq<u8>| c == com_scalar_b1(z, key, r)
}

/// Commit a single `G1` element to `B1` with the given randomness.
pub fn commit_G1_with_randomness(xvar: &G1, key: &CRS, r1: &Scalar, r2: &Scalar) -> (c: Com1)
    ensures
        c@ == com_g1(xvar@, *key, r1@, r2@),
{
    commit_two(&Com1::linear_map(xvar), &key.u1, &key.u2, r1, r2)
}

/// Commit a single `G1` element to `B1` with two fresh random scalars.
pub fn commit_G1(xvar: &G1, key: &CRS, rng: &mut StdRng) -> (c: Com1)
    ensures
        is_com_g1(c@, xvar@, *key),
{
    let r1 = Scalar::random(rng);
    let r2 = Scalar::random(rng);
    let c = commit_G1_with_randomness(xvar, key, &r1, &r2);
    assert(c@ == com_g1(xvar@, *key, r1@, r2@));
    c
}

/// Commit every `G1` element of the list to `B1`, row `i` of `rand`
/// holding the two scalars of element `i`: `i_1(X) + R u`.
pub fn batch_commit_G1_with_randomness(
    xvars: &Vec<G1>,
    key: &CRS,
    rand: &Vec<(Scalar, Scalar)>,
) -> (coms: Vec<Com1>)
    requires
        rand.len() == xvars.len(),
    ensures
        coms.len() == xvars.len(),
        coms@.map_values(|c: Com1| c@) == batch_two::<Com1>(
            xvars@.map_values(|x: G1| iota1(x@)),
            key.u1@,
            key.u2@,
            rows_view(rand@),
        ),
        forall|i: int|
            0 <= i < xvars.len() ==> #[trigger] coms[i]@ == com_g1(
                xvars[i]@,
                *key,
                rand[i].0@,
                rand[i].1@,
            ),
{
    let lin = Com1::batch_linear_map(xvars);
    assert(lin@.map_values(|c: Com1| c@) =~= xvars@.map_values(|x: G1| iota1(x@)));
    let coms = batch_commit_two(&lin, &key.u1, &key.u2, rand);
    assert forall|i: int| 0 <= i < xvars.len() implies #[trigger] coms[i]@ == com_g1(
        xvars[i]@,
        *key,
        rand[i].0@,
        rand[i].1@,
    ) by {
        assert(coms@.map_values(|c: Com1| c@)[i] == coms[i]@);
        assert(lin@.map_values(|c: Com1| c@)[i] == lin[i]@);
    }
    coms
}

/// Commit every `G1` element of the list to `B1`, with two fresh random
/// scalars, drawn independently, for each element.
pub fn batch_commit_G1(xvars: &Vec<G1>, key: &CRS, rng: &mut StdRng) -> (coms: Vec<Com1>)
    ensures
        coms.len() == xvars.len(),
        forall|i: int| 0 <= i < xvars.len() ==> #[trigger] is_com_g1(coms[i]@, xvars[i]@, *key),
{
    let rand = random_rows(xvars.len(), rng);
    let coms = batch_commit_G1_with_randomness(xvars, key, &rand);
    assert forall|i: int| 0 <= i < xvars.len() implies #[trigger] is_com_g1(
        coms[i]@,
        xvars[i]@,
        *key,
    ) by {
        assert(coms[i]@ == com_g1(xvars[i]@, *key, rand[i].0@, rand[i].1@));
    }
    coms
}

/// Commit a single scalar to `B1` with the given randomness.
pub fn commit_scalar_to_B1_with_randomness(scalar_xvar: &Scalar, key: &CRS, r: &Scalar) -> (c: Com1)
    ensures
        c@ == com_scalar_b1(scalar_xvar@, *key, r@),
{
    commit_one(&Com1::scalar_linear_map(scalar_xvar, key), &key.u1, r)
}

/// Commit a single scalar to `B1` with one fresh random scalar.
pub fn commit_scalar_to_B1(scalar_xvar: &Scalar, key: &CRS, rng: &mut StdRng) -> (c: Com1)
    ensures
        is_com_scalar_b1(c@, scalar_xvar@, *key),
{
    let r = Scalar::random(rng);
    let c = commit_scalar_to_B1_with_randomness(scalar_xvar, key, &r);
    assert(c@ == com_scalar_b1(scalar_xvar@, *key, r@));
    c
}

/// Commit every scalar of the list to `B1`, entry `i` of `rand` being the
/// scalar of element `i`: `i_1'(z) + r u1`.
pub fn batch_commit_scalar_to_B1_with_randomness(
    scalar_xvars: &Vec<Scalar>,
    key: &CRS,
    rand: &Vec<Scalar>,
) -> (coms: Vec<Com1>)
    requires
        rand.len() == scalar_xvars.len(),
    ensures
        coms.len() == scalar_xvars.len(),
        coms@.map_values(|c: Com1| c@) == batch_one::<Com1>(
            scalar_xvars@.map_values(|z: Scalar| iota1_scalar(z@, *key)),
            key.u1@,
            column_view(rand@),
        ),
        forall|i: int|
            0 <= i < scalar_xvars.len() ==> #[trigger] coms[i]@ == com_scalar_b1(
                scalar_xvars[i]@,
                *key,
                rand[i]@,
            ),
{
    let slin = Com1::batch_scalar_linear_map(scalar_xvars, key);
    assert(slin@.map_values(|c: Com1| c@) =~= scalar_xvars@.map_values(
        |z: Scalar| iota1_scalar(z@, *key),
    ));
    let coms = batch_commit_one(&slin, &key.u1, rand);
    assert forall|i: int| 0 <= i < scalar_xvars.len() implies #[trigger] coms[i]@ == com_scalar_b1(
        scalar_xvars[i]@,
        *key,
        rand[i]@,
    ) by {
        assert(coms@.map_values(|c: Com1| c@)[i] == coms[i]@);
        assert(slin@.map_values(|c: Com1| c@)[i] == slin[i]@);
    }
    coms
}

/// Commit every scalar of the list to `B1`, with one fresh random scalar for
/// each element.
pub fn batch_commit_scalar_to_B1(scalar_xvars: &Vec<Scalar>, key: &CRS, rng: &mut StdRng) -> (coms: Vec<Com1>)
    ensures
        coms.len() == scalar_xvars.len(),
        forall|i: int|
            0 <= i < scalar_xvars.len() ==> #[trigger] is_com_scalar_b1(
                coms[i]@,
                scalar_xvars[i]@,
                *key,
            ),
{
    let rand = random_column(scalar_xvars.len(), rng);
    let coms = batch_commit_scalar_to_B1_with_randomness(scalar_xvars, key, &rand);
    assert forall|i: int| 0 <= i < scalar_xvars.len() implies #[trigger] is_com_scalar_b1(
        coms[i]@,
        scalar_xvars[i]@,
        *key,
    ) by {
        assert(coms[i]@ == com_scalar_b1(scalar_xvars[i]@, *key, rand[i]@));
    }
    coms
}

// Side 2: commitments into `B2`, under the key entries `v1`, `v2`.

/// The commitment `i_2(y) + (s1 v1 + s2 v2)` of a `G2` element.
pub open spec fn com_g2(y: Seq<u8>, key: CRS, s1: Seq<u8>, s2: Seq<u8>) -> B2 {
    com_two::<Com2>(iota2(y), key.v1@, key.v2@, s1, s2)
}

/// The commitment `i_2'(z) + s v1` of a scalar.
pub open spec fn com_scalar_b2(z: Seq<u8>, key: CRS, s: Seq<u8>) -> B2 {
    com_one::<Com2>(iota2_scalar(z, key), key.v1@, s)
}

/// `c` is a commitment of the `G2` element `y` under `key`, for some
/// randomness.
pub open spec fn is_com_g2(c: B2, y: Seq<u8>, key: CRS) -> bool {
    exists|s1: Seq<u8>, s2: Seq<u8>| c == com_g2(y, key, s1, s2)
}

/// `c` is a commitment of the scalar `z` in `B2` under `key`, for some
/// randomness.
pub open spec fn is_com_scalar_b2(c: B2, z: Seq<u8>, key: CRS) -> bool {
    exists|s: Seq<u8>| c == com_scalar_b2(z, key, s)
}

/// Commit a single `G2` element to `B2` with the given randomness.
pub fn commit_G2_with_randomness(yvar: &G2, key: &CRS, s1: &Scalar, s2: &Scalar) -> (c: Com2)
    ensures
        c@ == com_g2(yvar@, *key, s1@, s2@),
{
    commit_two(&Com2::linear_map(yvar), &key.v1, &key.v2, s1, s2)
}

/// Commit a single `G2` element to `B2` with two fresh random scalars.
pub fn commit_G2(yvar: &G2, key: &CRS, rng: &mut StdRng) -> (c: Com2)
    ensures
        is_com_g2(c@, yvar@, *key),
{
    let s1 = Scalar::random(rng);
    let s2 = Scalar::random(rng);
    let c = commit_G2_with_randomness(yvar, key, &s1, &s2);
    assert(c@ == com_g2(yvar@, *key, s1@, s2@));
    c
}

/// Commit every `G2` element of the list to `B2`, row `i` of `rand`
/// holding the two scalars of element `i`: `i_2(Y) + S v`.
pub fn batch_commit_G2_with_randomness(
    yvars: &Vec<G2>,
    key: &CRS,
    rand: &Vec<(Scalar, Scalar)>,
) -> (coms: Vec<Com2>)
    requires
        rand.len() == yvars.len(),
    ensures
        coms.len() == yvars.len(),
        coms@.map_values(|c: Com2| c@) == batch_two::<Com2>(
            yvars@.map_values(|y: G2| iota2(y@)),
            key.v1@,
            key.v2@,
            rows_view(rand@),
        ),
        forall|i: int|
            0 <= i < yvars.len() ==> #[trigger] coms[i]@ == com_g2(
                yvars[i]@,
                *key,
                rand[i].0@,
                rand[i].1@,
            ),
{
    let lin = Com2::batch_linear_map(yvars);
    assert(lin@.map_values(|c: Com2| c@) =~= yvars@.map_values(|y: G2| iota2(y@)));
    let coms = batch_commit_two(&lin, &key.v1, &key.v2, rand);
    assert forall|i: int| 0 <= i < yvars.len() implies #[trigger] coms[i]@ == com_g2(
        yvars[i]@,
        *key,
        rand[i].0@,
        rand[i].1@,
    ) by {
        assert(coms@.map_values(|c: Com2| c@)[i] == coms[i]@);
        assert(lin@.map_values(|c: Com2| c@)[i] == lin[i]@);
    }
    coms
}

/// Commit every `G2` element of the list to `B2`, with two fresh random
/// scalars, drawn independently, for each element.
pub fn batch_commit_G2(yvars: &Vec<G2>, key: &CRS, rng: &mut StdRng) -> (coms: Vec<Com2>)
    ensures
        coms.len() == yvars.len(),
        forall|i: int| 0 <= i < yvars.len() ==> #[trigger] is_com_g2(coms[i]@, yvars[i]@, *key),
{
    let rand = random_rows(yvars.len(), rng);
    let coms = batch_commit_G2_with_randomness(yvars, key, &rand);
    assert forall|i: int| 0 <= i < yvars.len() implies #[trigger] is_com_g2(
        coms[i]@,
        yvars[i]@,
        *key,
    ) by {
        assert(coms[i]@ == com_g2(yvars[i]@, *key, rand[i].0@, rand[i].1@));
    }
    coms
}

/// Commit a single scalar to `B2` with the given randomness.
pub fn commit_scalar_to_B2_with_randomness(scalar_yvar: &Scalar, key: &CRS, s: &Scalar) -> (c: Com2)
    ensures
        c@ == com_scalar_b2(scalar_yvar@, *key, s@),
{
    commit_one(&Com2::scalar_linear_map(scalar_yvar, key), &key.v1, s)
}

/// Commit a single scalar to `B2` with one fresh random scalar.
pub fn commit_scalar_to_B2(scalar_yvar: &Scalar, key: &CRS, rng: &mut StdRng) -> (c: Com2)
    ensures
        is_com_scalar_b2(c@, scalar_yvar@, *key),
{
    let s = Scalar::random(rng);
    let c = commit_scalar_to_B2_with_randomness(scalar_yvar, key, &s);
    assert(c@ == com_scalar_b2(scalar_yvar@, *key, s@));
    c
}

/// Commit every scalar of the list to `B2`, entry `i` of `rand` being the
/// scalar of element `i`: `i_2'(z) + s v1`.
pub fn batch_commit_scalar_to_B2_with_randomness(
    scalar_yvars: &Vec<Scalar>,
    key: &CRS,
    rand: &Vec<Scalar>,
) -> (coms: Vec<Com2>)
    requires
        rand.len() == scalar_yvars.len(),
    ensures
        coms.len() == scalar_yvars.len(),
        coms@.map_values(|c: Com2| c@) == batch_one::<Com2>(
            scalar_yvars@.map_values(|z: Scalar| iota2_scalar(z@, *key)),
            key.v1@,
            column_view(rand@),
        ),
        forall|i: int|
            0 <= i < scalar_yvars.len() ==> #[trigger] coms[i]@ == com_scalar_b2(
                scalar_yvars[i]@,
                *key,
                rand[i]@,
            ),
{
    let slin = Com2::batch_scalar_linear_map(scalar_yvars, key);
    assert(slin@.map_values(|c: Com2| c@) =~= scalar_yvars@.map_values(
        |z: Scalar| iota2_scalar(z@, *key),
    ));
    let coms = batch_commit_one(&slin, &key.v1, rand);
    assert forall|i: int| 0 <= i < scalar_yvars.len() implies #[trigger] coms[i]@ == com_scalar_b2(
        scalar_yvars[i]@,
        *key,
        rand[i]@,
    ) by {
        assert(coms@.map_values(|c: Com2| c@)[i] == coms[i]@);
        assert(slin@.map_values(|c: Com2| c@)[i] == slin[i]@);
    }
    coms
}

/// Commit every scalar of the list to `B2`, with one fresh random scalar for
/// each element.
pub fn batch_commit_scalar_to_B2(scalar_yvars: &Vec<Scalar>, key: &CRS, rng: &mut StdRng) -> (coms: Vec<Com2>)
    ensures
        coms.len() == scalar_yvars.len(),
        forall|i: int|
            0 <= i < scalar_yvars.len() ==> #[trigger] is_com_scalar_b2(
                coms[i]@,
                scalar_yvars[i]@,
                *key,
            ),
{
    let rand = random_column(scalar_yvars.len(), rng);
    let coms = batch_commit_scalar_to_B2_with_randomness(scalar_yvars, key, &rand);
    assert forall|i: int| 0 <= i < scalar_yvars.len() implies #[trigger] is_com_scalar_b2(
        coms[i]@,
        scalar_yvars[i]@,
        *key,
    ) by {
        assert(coms[i]@ == com_scalar_b2(scalar_yvars[i]@, *key, rand[i]@));
    }
    coms
}

} // verus!
