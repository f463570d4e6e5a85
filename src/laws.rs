//! Properties that relate the commitment operations to one another.
use crate::com::{CommitmentGroup, CRS};
use crate::commit::{
    batch_one, batch_two, com_g1, com_g2, com_one, com_scalar_b1, com_scalar_b2, com_two,
    is_com_g1, is_com_g2, is_com_scalar_b1, is_com_scalar_b2, key_mul, key_scale,
};
use vstd::prelude::*;

verus! {

/// Two commitments of one `G1` element, or of one scalar into `B1`, made
/// with any two choices of randomness, both open to that same value.
pub proof fn lemma_commitments_open_b1(
    x: Seq<u8>,
    z: Seq<u8>,
    key: CRS,
    r1: Seq<u8>,
    r2: Seq<u8>,
    s1: Seq<u8>,
    s2: Seq<u8>,
)
    ensures
        is_com_g1(com_g1(x, key, r1, r2), x, key),
        is_com_g1(com_g1(x, key, s1, s2), x, key),
        is_com_scalar_b1(com_scalar_b1(z, key, r1), z, key),
        is_com_scalar_b1(com_scalar_b1(z, key, s1), z, key),
{
    assert(com_g1(x, key, r1, r2) == com_g1(x, key, r1, r2));
    assert(com_g1(x, key, s1, s2) == com_g1(x, key, s1, s2));
    assert(com_scalar_b1(z, key, r1) == com_scalar_b1(z, key, r1));
    assert(com_scalar_b1(z, key, s1) == com_scalar_b1(z, key, s1));
}

/// Two commitments of one `G2` element, or of one scalar into `B2`, made
/// with any two choices of randomness, both open to that same value.
pub proof fn lemma_commitments_open_b2(
    y: Seq<u8>,
    z: Seq<u8>,
    key: CRS,
    s1: Seq<u8>,
    s2: Seq<u8>,
    t1: Seq<u8>,
    t2: Seq<u8>,
)
    ensures
        is_com_g2(com_g2(y, key, s1, s2), y, key),
        is_com_g2(com_g2(y, key, t1, t2), y, key),
        is_com_scalar_b2(com_scalar_b2(z, key, s1), z, key),
        is_com_scalar_b2(com_scalar_b2(z, key, t1), z, key),
{
    assert(com_g2(y, key, s1, s2) == com_g2(y, key, s1, s2));
    assert(com_g2(y, key, t1, t2) == com_g2(y, key, t1, t2));
    assert(com_scalar_b2(z, key, s1) == com_scalar_b2(z, key, s1));
    assert(com_scalar_b2(z, key, t1) == com_scalar_b2(z, key, t1));
}

/// The matrix form `E + R k` of a batch of commitments with two randomizers
/// is, row by row, the single commitment of that embedded value with that
/// row of `R`.
pub proof fn lemma_batch_matches_single_two<C: CommitmentGroup>(
    es: Seq<C::V>,
    k1: C::V,
    k2: C::V,
    rand: Seq<(Seq<u8>, Seq<u8>)>,
)
    requires
        rand.len() == es.len(),
    ensures
        batch_two::<C>(es, k1, k2, rand).len() == es.len(),
        forall|i: int|
            0 <= i < es.len() ==> #[trigger] batch_two::<C>(es, k1, k2, rand)[i] == com_two::<C>(
                es[i],
                k1,
                k2,
                rand[i].0,
                rand[i].1,
            ),
{
    assert forall|i: int| 0 <= i < es.len() implies #[trigger] batch_two::<C>(es, k1, k2, rand)[i]
        == com_two::<C>(es[i], k1, k2, rand[i].0, rand[i].1) by {
        assert(key_mul::<C>(rand, k1, k2)[i] == crate::commit::rand_term::<C>(
            k1,
            k2,
            rand[i].0,
            rand[i].1,
        ));
    }
}

/// The matrix form `E + r k1` of a batch of commitments with one randomizer
/// is, entry by entry, the single commitment of that embedded value with that
/// entry of `r`.
pub proof fn lemma_batch_matches_single_one<C: CommitmentGroup>(
    es: Seq<C::V>,
    k1: C::V,
    rand: Seq<Seq<u8>>,
)
    requires
        rand.len() == es.len(),
    ensures
        batch_one::<C>(es, k1, rand).len() == es.len(),
        forall|i: int|
            0 <= i < es.len() ==> #[trigger] batch_one::<C>(es, k1, rand)[i] == com_one::<C>(
                es[i],
                k1,
                rand[i],
            ),
{
    assert forall|i: int| 0 <= i < es.len() implies #[trigger] batch_one::<C>(es, k1, rand)[i]
        == com_one::<C>(es[i], k1, rand[i]) by {
        assert(key_scale::<C>(rand, k1)[i] == C::scale(k1, rand[i]));
    }
}

} // verus!
