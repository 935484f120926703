use ark_ec::pairing::Pairing;
use ark_ec::CurveGroup;
use ark_ff::One;
use ark_serialize::{CanonicalDeserialize, CanonicalSerialize};
use ark_std::UniformRand;
use rand::SeedableRng;

use pairing_vectors::bls12377;
use pairing_vectors::bw6761;
use pairing_vectors::records::VectorSuccess;

fn fq_from_be_word(word: &[u8]) -> ark_bls12_377::Fq {
    let mut le = word[16..64].to_vec();
    le.reverse();
    ark_bls12_377::Fq::deserialize_uncompressed(&le[..]).unwrap()
}

fn g1_from_be(enc: &[u8]) -> ark_bls12_377::G1Affine {
    assert_eq!(enc.len(), 128);
    if enc.iter().all(|b| *b == 0u8) {
        return ark_bls12_377::G1Affine::identity();
    }
    ark_bls12_377::G1Affine::new_unchecked(
        fq_from_be_word(&enc[0..64]),
        fq_from_be_word(&enc[64..128]),
    )
}

fn g2_from_be(enc: &[u8]) -> ark_bls12_377::G2Affine {
    assert_eq!(enc.len(), 256);
    if enc.iter().all(|b| *b == 0u8) {
        return ark_bls12_377::G2Affine::identity();
    }
    let x = ark_bls12_377::Fq2::new(fq_from_be_word(&enc[0..64]), fq_from_be_word(&enc[64..128]));
    let y = ark_bls12_377::Fq2::new(
        fq_from_be_word(&enc[128..192]),
        fq_from_be_word(&enc[192..256]),
    );
    ark_bls12_377::G2Affine::new_unchecked(x, y)
}

fn fr_from_be(enc: &[u8]) -> ark_bls12_377::Fr {
    assert_eq!(enc.len(), 32);
    let mut le = enc.to_vec();
    le.reverse();
    ark_bls12_377::Fr::deserialize_uncompressed(&le[..]).unwrap()
}

use ark_ec::AffineRepr;

#[test]
fn g1_add_vectors_reencode_the_external_sum() {
    let mut rng = rand::rngs::StdRng::seed_from_u64(11);
    let vs: Vec<VectorSuccess> = bls12377::gen_g1_add_vectors(&mut rng, 2).unwrap();
    assert_eq!(vs.len(), 2);
    for v in vs.iter() {
        let input = hex::decode(&v.input).unwrap();
        assert_eq!(input.len(), 256);
        let a = g1_from_be(&input[0..128]);
        let b = g1_from_be(&input[128..256]);
        assert!(a.is_on_curve());
        assert!(b.is_on_curve());
        let sum = (a + b).into_affine();
        let expected = hex::decode(&v.expected).unwrap();
        let recorded = g1_from_be(&expected[..]);
        assert_eq!(sum, recorded);
        assert!(v.name.is_none());
    }
}

#[test]
fn g2_add_vectors_reencode_the_external_sum() {
    let mut rng = rand::rngs::StdRng::seed_from_u64(12);
    let vs = bls12377::gen_g2_add_vectors(&mut rng, 2).unwrap();
    for v in vs.iter() {
        let input = hex::decode(&v.input).unwrap();
        assert_eq!(input.len(), 512);
        let a = g2_from_be(&input[0..256]);
        let b = g2_from_be(&input[256..512]);
        let sum = (a + b).into_affine();
        let expected = hex::decode(&v.expected).unwrap();
        assert_eq!(sum, g2_from_be(&expected[..]));
    }
}

#[test]
fn bw6_g1_add_vectors_reencode_the_external_sum() {
    fn bw6_fq(word: &[u8]) -> ark_bw6_761::Fq {
        let mut le = word.to_vec();
        le.reverse();
        ark_bw6_761::Fq::deserialize_uncompressed(&le[..]).unwrap()
    }
    fn bw6_g1(enc: &[u8]) -> ark_bw6_761::G1Affine {
        if enc.iter().all(|b| *b == 0u8) {
            return ark_bw6_761::G1Affine::identity();
        }
        ark_bw6_761::G1Affine::new_unchecked(bw6_fq(&enc[0..96]), bw6_fq(&enc[96..192]))
    }
    let mut rng = rand::rngs::StdRng::seed_from_u64(13);
    let vs = bw6761::gen_g1_add_vectors(&mut rng, 2).unwrap();
    for (i, v) in vs.iter().enumerate() {
        let input = hex::decode(&v.input).unwrap();
        assert_eq!(input.len(), 384);
        let a = bw6_g1(&input[0..192]);
        let b = bw6_g1(&input[192..384]);
        let sum = (a + b).into_affine();
        let expected = hex::decode(&v.expected).unwrap();
        assert_eq!(sum, bw6_g1(&expected[..]));
        assert_eq!(v.name.as_ref().unwrap(), &format!("g1_add_{}", i + 1));
    }
}

#[test]
fn g1_mul_vectors_reencode_the_external_product() {
    let mut rng = rand::rngs::StdRng::seed_from_u64(14);
    let vs = bls12377::gen_g1_mul_vectors(&mut rng, 2).unwrap();
    for v in vs.iter() {
        let input = hex::decode(&v.input).unwrap();
        assert_eq!(input.len(), 160);
        let a = g1_from_be(&input[0..128]);
        let e = fr_from_be(&input[128..160]);
        let product = (a * e).into_affine();
        let expected = hex::decode(&v.expected).unwrap();
        assert_eq!(product, g1_from_be(&expected[..]));
    }
}

#[test]
fn g1_multiexp_vectors_reencode_the_weighted_sum() {
    let mut rng = rand::rngs::StdRng::seed_from_u64(15);
    let vs = bls12377::gen_g1_multiexp_vectors(&mut rng, 3).unwrap();
    assert_eq!(vs.len(), 3);
    for (i, v) in vs.iter().enumerate() {
        let k = i + 1;
        let input = hex::decode(&v.input).unwrap();
        assert_eq!(input.len(), k * 160);
        let mut acc = ark_bls12_377::G1Projective::from(ark_bls12_377::G1Affine::identity());
        for j in 0..k {
            let a = g1_from_be(&input[j * 160..j * 160 + 128]);
            let e = fr_from_be(&input[j * 160 + 128..(j + 1) * 160]);
            acc += a * e;
        }
        let expected = hex::decode(&v.expected).unwrap();
        assert_eq!(acc.into_affine(), g1_from_be(&expected[..]));
    }
}

#[test]
fn zero_scalar_yields_the_infinity_encoding() {
    let mut rng = rand::rngs::StdRng::seed_from_u64(16);
    let p = ark_bls12_377::G1Projective::rand(&mut rng).into_affine();
    let mut x: Vec<u8> = Vec::new();
    let mut y: Vec<u8> = Vec::new();
    p.x.serialize_uncompressed(&mut x).unwrap();
    p.y.serialize_uncompressed(&mut y).unwrap();
    let comps = vec![x, y];
    let zero_scalar = vec![0u8; 32];
    let product = bls12377::g1_scale_point(&comps, &zero_scalar).unwrap();
    assert_eq!(product, vec![vec![0u8; 48], vec![0u8; 48]]);
    let enc = bls12377::encode_g1(&product);
    assert_eq!(enc, vec![0u8; 128]);
}

#[test]
fn pairing_true_vectors_evaluate_to_the_identity() {
    let mut rng = rand::rngs::StdRng::seed_from_u64(17);
    let vs = bls12377::gen_pairing_vectors(&mut rng, 2).unwrap();
    assert_eq!(vs.len(), 6);
    let true_sentinel = {
        let mut s = vec![0u8; 32];
        s[31] = 1u8;
        hex::encode(s)
    };
    for v in vs[0..4].iter() {
        assert_eq!(v.expected, true_sentinel);
        let input = hex::decode(&v.input).unwrap();
        assert_eq!(input.len() % 384, 0);
        let pairs = input.len() / 384;
        let mut g1s = Vec::new();
        let mut g2s = Vec::new();
        for j in 0..pairs {
            g1s.push(g1_from_be(&input[j * 384..j * 384 + 128]));
            g2s.push(g2_from_be(&input[j * 384 + 128..(j + 1) * 384]));
        }
        let out = ark_bls12_377::Bls12_377::multi_pairing(g1s, g2s);
        assert!(out.0.is_one());
    }
}

#[test]
fn pairing_false_vectors_evaluate_away_from_the_identity() {
    let mut rng = rand::rngs::StdRng::seed_from_u64(18);
    let vs = bls12377::gen_pairing_vectors(&mut rng, 2).unwrap();
    let false_sentinel = hex::encode(vec![0u8; 32]);
    for v in vs[4..6].iter() {
        assert_eq!(v.expected, false_sentinel);
        let input = hex::decode(&v.input).unwrap();
        let pairs = input.len() / 384;
        let mut g1s = Vec::new();
        let mut g2s = Vec::new();
        for j in 0..pairs {
            g1s.push(g1_from_be(&input[j * 384..j * 384 + 128]));
            g2s.push(g2_from_be(&input[j * 384 + 128..(j + 1) * 384]));
        }
        let out = ark_bls12_377::Bls12_377::multi_pairing(g1s, g2s);
        assert!(!out.0.is_one());
    }
}

#[test]
fn pairing_degenerate_infinity_pairs_yield_the_true_sentinel() {
    let mut rng = rand::rngs::StdRng::seed_from_u64(19);
    let vs = bls12377::gen_pairing_vectors(&mut rng, 0).unwrap();
    assert_eq!(vs.len(), 2);
    let sentinel = "0".repeat(62) + "01";
    assert_eq!(vs[0].expected, sentinel);
    assert_eq!(vs[1].expected, sentinel);

    let in0 = hex::decode(&vs[0].input).unwrap();
    assert_eq!(in0.len(), 384);
    assert!(in0[0..128].iter().all(|b| *b == 0u8));
    let h = g2_from_be(&in0[128..384]);
    assert_eq!(h, ark_bls12_377::G2Affine::generator());
    let out = ark_bls12_377::Bls12_377::multi_pairing(
        vec![ark_bls12_377::G1Affine::identity()],
        vec![h],
    );
    assert!(out.0.is_one());

    let in1 = hex::decode(&vs[1].input).unwrap();
    assert_eq!(in1.len(), 384);
    let g = g1_from_be(&in1[0..128]);
    assert_eq!(g, ark_bls12_377::G1Affine::generator());
    assert!(in1[128..384].iter().all(|b| *b == 0u8));
    let out2 = ark_bls12_377::Bls12_377::multi_pairing(
        vec![g],
        vec![ark_bls12_377::G2Affine::identity()],
    );
    assert!(out2.0.is_one());
}

#[test]
fn bw6_pairing_vector_names_follow_the_numbering() {
    let mut rng = rand::rngs::StdRng::seed_from_u64(20);
    let vs = bw6761::gen_pairing_vectors(&mut rng, 1).unwrap();
    assert_eq!(vs.len(), 4);
    assert_eq!(vs[0].name.as_ref().unwrap(), "g2_pairing_1");
    assert_eq!(vs[1].name.as_ref().unwrap(), "g2_pairing_2");
    assert_eq!(vs[2].name.as_ref().unwrap(), "g2_pairing_2");
    assert_eq!(vs[3].name.as_ref().unwrap(), "g2_pairing_0_3");
}
