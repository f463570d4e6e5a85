use ark_bls12_381::{Fr, G1Affine, G2Affine};
use ark_ec::{AffineCurve, ProjectiveCurve};
use ark_ff::{PrimeField, UniformRand, Zero};
use ark_serialize::CanonicalSerialize;
use ark_std::rand::rngs::StdRng;
use ark_std::rand::SeedableRng;
use gs_commit::com::{Com1, Com2, CommitmentGroup, CRS};
use gs_commit::commit::{
    batch_commit_G1, batch_commit_G1_with_randomness, batch_commit_G2,
    batch_commit_G2_with_randomness, batch_commit_scalar_to_B1,
    batch_commit_scalar_to_B1_with_randomness, batch_commit_scalar_to_B2,
    batch_commit_scalar_to_B2_with_randomness, commit_G1, commit_G1_with_randomness, commit_G2,
    commit_G2_with_randomness, commit_scalar_to_B1, commit_scalar_to_B1_with_randomness,
    commit_scalar_to_B2, commit_scalar_to_B2_with_randomness,
};
use gs_commit::group::{Scalar, G1, G2};

fn enc<T: CanonicalSerialize>(t: &T) -> Vec<u8> {
    let mut out = Vec::new();
    t.serialize(&mut out).unwrap();
    out
}

fn g1(p: G1Affine) -> G1 {
    G1::from_bytes(enc(&p)).unwrap()
}

fn g2(p: G2Affine) -> G2 {
    G2::from_bytes(enc(&p)).unwrap()
}

fn sc(f: Fr) -> Scalar {
    Scalar::from_le_bytes(enc(&f))
}

fn p1(k: u64) -> G1Affine {
    G1Affine::prime_subgroup_generator().mul(Fr::from(k).into_repr()).into_affine()
}

fn p2(k: u64) -> G2Affine {
    G2Affine::prime_subgroup_generator().mul(Fr::from(k).into_repr()).into_affine()
}

fn mul1(p: G1Affine, s: Fr) -> G1Affine {
    p.mul(s.into_repr()).into_affine()
}

fn mul2(p: G2Affine, s: Fr) -> G2Affine {
    p.mul(s.into_repr()).into_affine()
}

fn com1(a: G1Affine, b: G1Affine) -> Com1 {
    Com1 { fst: g1(a), snd: g1(b) }
}

fn com2(a: G2Affine, b: G2Affine) -> Com2 {
    Com2 { fst: g2(a), snd: g2(b) }
}

// Key entries as multiples of the generators: u1 = (P, 3P), u2 = (5P, 7P),
// and the same multiples of the G2 generator for v1, v2.
fn test_key() -> CRS {
    CRS {
        u1: com1(p1(1), p1(3)),
        u2: com1(p1(5), p1(7)),
        v1: com2(p2(1), p2(3)),
        v2: com2(p2(5), p2(7)),
        g1_gen: g1(p1(1)),
        g2_gen: g2(p2(1)),
    }
}

fn bytes1(c: &Com1) -> (Vec<u8>, Vec<u8>) {
    (c.fst.to_bytes(), c.snd.to_bytes())
}

fn bytes2(c: &Com2) -> (Vec<u8>, Vec<u8>) {
    (c.fst.to_bytes(), c.snd.to_bytes())
}

#[test]
fn commit_g1_seeded_matches_hand_computation() {
    let key = test_key();
    let x = p1(11);
    let mut rng = StdRng::seed_from_u64(7);
    let c = commit_G1(&g1(x), &key, &mut rng);

    let mut replay = StdRng::seed_from_u64(7);
    let r1 = Fr::rand(&mut replay);
    let r2 = Fr::rand(&mut replay);
    let fst = mul1(p1(1), r1) + mul1(p1(5), r2);
    let snd = x + mul1(p1(3), r1) + mul1(p1(7), r2);
    assert_eq!(bytes1(&c), (enc(&fst), enc(&snd)));
}

#[test]
fn commit_g2_seeded_matches_hand_computation() {
    let key = test_key();
    let y = p2(13);
    let mut rng = StdRng::seed_from_u64(8);
    let d = commit_G2(&g2(y), &key, &mut rng);

    let mut replay = StdRng::seed_from_u64(8);
    let s1 = Fr::rand(&mut replay);
    let s2 = Fr::rand(&mut replay);
    let fst = mul2(p2(1), s1) + mul2(p2(5), s2);
    let snd = y + mul2(p2(3), s1) + mul2(p2(7), s2);
    assert_eq!(bytes2(&d), (enc(&fst), enc(&snd)));
}

#[test]
fn commit_g1_with_small_randomness_exact() {
    // i_1(2P) + 1 u1 + 2 u2 = (O, 2P) + (P, 3P) + (10P, 14P) = (11P, 19P)
    let key = test_key();
    let c = commit_G1_with_randomness(&g1(p1(2)), &key, &sc(Fr::from(1u64)), &sc(Fr::from(2u64)));
    assert_eq!(bytes1(&c), (enc(&p1(11)), enc(&p1(19))));
}

#[test]
fn commit_g2_with_small_randomness_exact() {
    // i_2(4Q) + 3 v1 + 1 v2 = (O, 4Q) + (3Q, 9Q) + (5Q, 7Q) = (8Q, 20Q)
    let key = test_key();
    let d = commit_G2_with_randomness(&g2(p2(4)), &key, &sc(Fr::from(3u64)), &sc(Fr::from(1u64)));
    assert_eq!(bytes2(&d), (enc(&p2(8)), enc(&p2(20))));
}

#[test]
fn commit_scalar_b1_with_randomness_exact() {
    // u = u2 + (O, P) = (5P, 8P); i_1'(2) + 3 u1 = (10P, 16P) + (3P, 9P) = (13P, 25P)
    let key = test_key();
    let c = commit_scalar_to_B1_with_randomness(&sc(Fr::from(2u64)), &key, &sc(Fr::from(3u64)));
    assert_eq!(bytes1(&c), (enc(&p1(13)), enc(&p1(25))));
}

#[test]
fn commit_scalar_b2_with_randomness_exact() {
    // v = v2 + (O, Q) = (5Q, 8Q); i_2'(3) + 2 v1 = (15Q, 24Q) + (2Q, 6Q) = (17Q, 30Q)
    let key = test_key();
    let d = commit_scalar_to_B2_with_randomness(&sc(Fr::from(3u64)), &key, &sc(Fr::from(2u64)));
    assert_eq!(bytes2(&d), (enc(&p2(17)), enc(&p2(30))));
}

#[test]
fn commit_scalar_seeded_matches_hand_computation() {
    let key = test_key();
    let z = Fr::from(9u64);
    let mut rng = StdRng::seed_from_u64(21);
    let c = commit_scalar_to_B1(&sc(z), &key, &mut rng);
    let d = commit_scalar_to_B2(&sc(z), &key, &mut rng);

    let mut replay = StdRng::seed_from_u64(21);
    let r = Fr::rand(&mut replay);
    let s = Fr::rand(&mut replay);
    let c_fst = mul1(p1(5), z) + mul1(p1(1), r);
    let c_snd = mul1(p1(8), z) + mul1(p1(3), r);
    assert_eq!(bytes1(&c), (enc(&c_fst), enc(&c_snd)));
    let d_fst = mul2(p2(5), z) + mul2(p2(1), s);
    let d_snd = mul2(p2(8), z) + mul2(p2(3), s);
    assert_eq!(bytes2(&d), (enc(&d_fst), enc(&d_snd)));
}

#[test]
fn fresh_commitments_of_one_value_differ() {
    let key = test_key();
    let x = g1(p1(4));
    let mut rng = StdRng::seed_from_u64(1);
    let a = commit_G1(&x, &key, &mut rng);
    let b = commit_G1(&x, &key, &mut rng);
    assert_ne!(bytes1(&a), bytes1(&b));
    let y = g2(p2(4));
    let c = commit_G2(&y, &key, &mut rng);
    let d = commit_G2(&y, &key, &mut rng);
    assert_ne!(bytes2(&c), bytes2(&d));
}

#[test]
fn same_randomness_gives_same_commitment() {
    let key = test_key();
    let x = g1(p1(4));
    let r1 = Fr::from(17u64);
    let r2 = Fr::from(23u64);
    let a = commit_G1_with_randomness(&x, &key, &sc(r1), &sc(r2));
    let b = commit_G1_with_randomness(&x, &key, &sc(r1), &sc(r2));
    assert_eq!(bytes1(&a), bytes1(&b));
}

#[test]
fn sum_of_commitments_commits_to_sum() {
    let key = test_key();
    let mut rng = StdRng::seed_from_u64(3);
    let (r1, r2, s1, s2) =
        (Fr::rand(&mut rng), Fr::rand(&mut rng), Fr::rand(&mut rng), Fr::rand(&mut rng));
    let (x1, x2) = (p1(6), p1(10));
    let a = commit_G1_with_randomness(&g1(x1), &key, &sc(r1), &sc(r2));
    let b = commit_G1_with_randomness(&g1(x2), &key, &sc(s1), &sc(s2));
    let sum = commit_G1_with_randomness(&g1(x1 + x2), &key, &sc(r1 + s1), &sc(r2 + s2));
    assert_eq!(bytes1(&a.add(&b)), bytes1(&sum));

    let (y1, y2) = (p2(6), p2(10));
    let c = commit_G2_with_randomness(&g2(y1), &key, &sc(r1), &sc(r2));
    let d = commit_G2_with_randomness(&g2(y2), &key, &sc(s1), &sc(s2));
    let sum2 = commit_G2_with_randomness(&g2(y1 + y2), &key, &sc(r1 + s1), &sc(r2 + s2));
    assert_eq!(bytes2(&c.add(&d)), bytes2(&sum2));
}

#[test]
fn batch_g1_equals_single_commitments() {
    let key = test_key();
    let xs = vec![g1(p1(2)), g1(p1(9)), g1(p1(31))];
    let mut rng = StdRng::seed_from_u64(5);
    let rows: Vec<(Fr, Fr)> = (0..3).map(|_| (Fr::rand(&mut rng), Fr::rand(&mut rng))).collect();
    let rand: Vec<(Scalar, Scalar)> = rows.iter().map(|(a, b)| (sc(*a), sc(*b))).collect();
    let coms = batch_commit_G1_with_randomness(&xs, &key, &rand);
    assert_eq!(coms.len(), 3);
    for i in 0..3 {
        let single = commit_G1_with_randomness(&xs[i], &key, &rand[i].0, &rand[i].1);
        assert_eq!(bytes1(&coms[i]), bytes1(&single));
    }
}

#[test]
fn batch_g2_equals_single_commitments() {
    let key = test_key();
    let ys = vec![g2(p2(2)), g2(p2(9))];
    let rand = vec![
        (sc(Fr::from(4u64)), sc(Fr::from(6u64))),
        (sc(Fr::from(8u64)), sc(Fr::from(1u64))),
    ];
    let coms = batch_commit_G2_with_randomness(&ys, &key, &rand);
    assert_eq!(coms.len(), 2);
    for i in 0..2 {
        let single = commit_G2_with_randomness(&ys[i], &key, &rand[i].0, &rand[i].1);
        assert_eq!(bytes2(&coms[i]), bytes2(&single));
    }
}

#[test]
fn seeded_batch_equals_seeded_singles() {
    let key = test_key();
    let xs = vec![g1(p1(3)), g1(p1(8))];
    let batch = batch_commit_G1(&xs, &key, &mut StdRng::seed_from_u64(99));
    let mut rng = StdRng::seed_from_u64(99);
    for i in 0..2 {
        let single = commit_G1(&xs[i], &key, &mut rng);
        assert_eq!(bytes1(&batch[i]), bytes1(&single));
    }
    let zs = vec![sc(Fr::from(5u64)), sc(Fr::from(12u64))];
    let batch = batch_commit_scalar_to_B2(&zs, &key, &mut StdRng::seed_from_u64(4));
    let mut rng = StdRng::seed_from_u64(4);
    for i in 0..2 {
        let single = commit_scalar_to_B2(&zs[i], &key, &mut rng);
        assert_eq!(bytes2(&batch[i]), bytes2(&single));
    }
}

#[test]
fn batch_scalars_equal_single_commitments() {
    let key = test_key();
    let zs = vec![sc(Fr::from(2u64)), sc(Fr::from(7u64))];
    let rand = vec![sc(Fr::from(3u64)), sc(Fr::from(5u64))];
    let c = batch_commit_scalar_to_B1_with_randomness(&zs, &key, &rand);
    let d = batch_commit_scalar_to_B2_with_randomness(&zs, &key, &rand);
    assert_eq!(c.len(), 2);
    assert_eq!(d.len(), 2);
    // first entry: (13P, 25P) as in the single scalar case
    assert_eq!(bytes1(&c[0]), (enc(&p1(13)), enc(&p1(25))));
    for i in 0..2 {
        let single1 = commit_scalar_to_B1_with_randomness(&zs[i], &key, &rand[i]);
        let single2 = commit_scalar_to_B2_with_randomness(&zs[i], &key, &rand[i]);
        assert_eq!(bytes1(&c[i]), bytes1(&single1));
        assert_eq!(bytes2(&d[i]), bytes2(&single2));
    }
}

#[test]
fn empty_batches_are_empty() {
    let key = test_key();
    let mut rng = StdRng::seed_from_u64(0);
    assert!(batch_commit_G1(&Vec::new(), &key, &mut rng).is_empty());
    assert!(batch_commit_G2(&Vec::new(), &key, &mut rng).is_empty());
    assert!(batch_commit_scalar_to_B1(&Vec::new(), &key, &mut rng).is_empty());
    assert!(batch_commit_scalar_to_B2(&Vec::new(), &key, &mut rng).is_empty());
    assert!(batch_commit_G1_with_randomness(&Vec::new(), &key, &Vec::new()).is_empty());
    assert!(batch_commit_scalar_to_B2_with_randomness(&Vec::new(), &key, &Vec::new()).is_empty());
}

#[test]
fn scalar_embedding_differs_from_lifted_group_embedding() {
    let key = test_key();
    let z = Fr::from(6u64);
    let scalar_side = Com1::scalar_linear_map(&sc(z), &key);
    let group_side = Com1::linear_map(&g1(mul1(p1(1), z)));
    assert_ne!(bytes1(&scalar_side), bytes1(&group_side));
    // i_1(6P) = (O, 6P); i_1'(6) = 6 (5P, 8P) = (30P, 48P)
    assert_eq!(bytes1(&group_side), (enc(&G1Affine::zero()), enc(&p1(6))));
    assert_eq!(bytes1(&scalar_side), (enc(&p1(30)), enc(&p1(48))));
}

#[test]
fn the_two_commitment_groups_are_distinct_types() {
    assert_ne!(std::any::TypeId::of::<Com1>(), std::any::TypeId::of::<Com2>());
    assert_ne!(std::any::TypeId::of::<G1>(), std::any::TypeId::of::<G2>());
}

#[test]
fn identity_and_group_ops() {
    assert_eq!(G1::identity().to_bytes(), enc(&G1Affine::zero()));
    assert_eq!(G2::identity().to_bytes(), enc(&G2Affine::zero()));
    let a = g1(p1(2));
    assert_eq!(a.add(&g1(p1(3))).to_bytes(), enc(&p1(5)));
    assert_eq!(a.scalar_mul(&sc(Fr::from(4u64))).to_bytes(), enc(&p1(8)));
    let b = g2(p2(2));
    assert_eq!(b.add(&g2(p2(3))).to_bytes(), enc(&p2(5)));
    assert_eq!(b.scalar_mul(&sc(Fr::from(4u64))).to_bytes(), enc(&p2(8)));
    // a short little-endian scalar is read as the same integer
    assert_eq!(a.scalar_mul(&Scalar::from_le_bytes(vec![4u8])).to_bytes(), enc(&p1(8)));
}

#[test]
fn invalid_encodings_are_rejected() {
    assert!(G1::from_bytes(vec![1u8; 48]).is_none());
    assert!(G2::from_bytes(vec![3u8; 96]).is_none());
    assert!(G1::from_bytes(Vec::new()).is_none());
    let bytes = enc(&p1(42));
    assert_eq!(G1::from_bytes(bytes.clone()).unwrap().to_bytes(), bytes);
}

#[test]
fn random_scalars_are_canonical_and_fresh() {
    let mut rng = StdRng::seed_from_u64(11);
    let a = Scalar::random(&mut rng);
    let b = Scalar::random(&mut rng);
    assert_eq!(a.to_le_bytes().len(), 32);
    assert_ne!(a.to_le_bytes(), b.to_le_bytes());
    let mut replay = StdRng::seed_from_u64(11);
    assert_eq!(a.to_le_bytes(), enc(&Fr::rand(&mut replay)));
}
