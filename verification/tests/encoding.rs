use ark_ec::CurveGroup;
use ark_serialize::{CanonicalDeserialize, CanonicalSerialize};
use ark_std::UniformRand;
use rand::SeedableRng;

use pairing_vectors::bls12377;
use pairing_vectors::bw6761;
use pairing_vectors::codec;

fn le_coords_g1_bls(p: &ark_bls12_377::G1Affine) -> Vec<Vec<u8>> {
    let mut x: Vec<u8> = Vec::new();
    let mut y: Vec<u8> = Vec::new();
    p.x.serialize_uncompressed(&mut x).unwrap();
    p.y.serialize_uncompressed(&mut y).unwrap();
    vec![x, y]
}

fn le_coords_g2_bls(p: &ark_bls12_377::G2Affine) -> Vec<Vec<u8>> {
    let mut x: Vec<u8> = Vec::new();
    let mut y: Vec<u8> = Vec::new();
    p.x.serialize_uncompressed(&mut x).unwrap();
    p.y.serialize_uncompressed(&mut y).unwrap();
    vec![x, y]
}

fn le_coords_g1_bw6(p: &ark_bw6_761::G1Affine) -> Vec<Vec<u8>> {
    let mut x: Vec<u8> = Vec::new();
    let mut y: Vec<u8> = Vec::new();
    p.x.serialize_uncompressed(&mut x).unwrap();
    p.y.serialize_uncompressed(&mut y).unwrap();
    vec![x, y]
}

fn fq_from_be_word_bls(word: &[u8]) -> ark_bls12_377::Fq {
    assert_eq!(word.len(), 64);
    for i in 0..16 {
        assert_eq!(word[i], 0u8);
    }
    let mut le = word[16..64].to_vec();
    le.reverse();
    ark_bls12_377::Fq::deserialize_uncompressed(&le[..]).unwrap()
}

fn fq_from_be_word_bw6(word: &[u8]) -> ark_bw6_761::Fq {
    assert_eq!(word.len(), 96);
    let mut le = word.to_vec();
    le.reverse();
    ark_bw6_761::Fq::deserialize_uncompressed(&le[..]).unwrap()
}

#[test]
fn fe_word_has_exact_length_and_zero_padding() {
    let p = bls12377::profile();
    let le: Vec<u8> = (0u8..48u8).collect();
    let w = codec::encode_fe_word(&p, &le);
    assert_eq!(w.len(), 64);
    for i in 0..16 {
        assert_eq!(w[i], 0u8);
    }
    for i in 0..48 {
        assert_eq!(w[16 + i], le[47 - i]);
    }

    let q = bw6761::profile();
    let le2: Vec<u8> = (0u8..96u8).collect();
    let w2 = codec::encode_fe_word(&q, &le2);
    assert_eq!(w2.len(), 96);
    for i in 0..96 {
        assert_eq!(w2[i], le2[95 - i]);
    }
}

#[test]
fn scalar_word_padding_is_profile_driven() {
    let le: Vec<u8> = (1u8..=32u8).collect();
    let w = bls12377::encode_fr(&le);
    assert_eq!(w.len(), 32);
    for i in 0..32 {
        assert_eq!(w[i], le[31 - i]);
    }

    let le2: Vec<u8> = (1u8..=48u8).collect();
    let w2 = bw6761::encode_fr(&le2);
    assert_eq!(w2.len(), 64);
    for i in 0..16 {
        assert_eq!(w2[i], 0u8);
    }
    for i in 0..48 {
        assert_eq!(w2[16 + i], le2[47 - i]);
    }
}

#[test]
fn hex_rendering_is_lowercase_high_nibble_first() {
    let bytes: Vec<u8> = vec![0x00u8, 0x1fu8, 0xabu8, 0xffu8];
    let s = codec::hex_string(&bytes);
    assert_eq!(s, "001fabff");
}

#[test]
fn oversized_fe_constant_matches_its_hex_form() {
    let expected = hex::decode(
        "0122e824fb83ce0ad187c94004faff3eb926186a81d14688528275ef8087be41707ba638e584e919\
         03cebaff25b423048689c8ed12f9fd9071dcd3dc73ebff2e98a116c25667a8f8160cf8aeeaf0a437\
         e6913e6870000082f49d00000000008f",
    )
    .unwrap();
    assert_eq!(bw6761::encoded_fe_larger_than_modulus(), expected);
    let fe = bw6761::encoded_fe_larger_than_modulus();
    let mut le = fe.clone();
    le.reverse();
    assert!(ark_bw6_761::Fq::deserialize_uncompressed(&le[..]).is_err());
}

#[test]
fn infinity_encoding_is_all_zero() {
    let inf = codec::encode_infinity(128);
    assert_eq!(inf, vec![0u8; 128]);
}

#[test]
fn g1_encoding_round_trips_through_the_consumer_decoding() {
    let mut rng = rand::rngs::StdRng::seed_from_u64(7);
    let p = ark_bls12_377::G1Projective::rand(&mut rng).into_affine();
    let enc = bls12377::encode_g1(&le_coords_g1_bls(&p));
    assert_eq!(enc.len(), 128);
    let x = fq_from_be_word_bls(&enc[0..64]);
    let y = fq_from_be_word_bls(&enc[64..128]);
    let q = ark_bls12_377::G1Affine::new_unchecked(x, y);
    assert_eq!(p, q);
    assert!(q.is_on_curve());
}

#[test]
fn g2_encoding_round_trips_through_the_consumer_decoding() {
    let mut rng = rand::rngs::StdRng::seed_from_u64(8);
    let p = ark_bls12_377::G2Projective::rand(&mut rng).into_affine();
    let enc = bls12377::encode_g2(&le_coords_g2_bls(&p));
    assert_eq!(enc.len(), 256);
    let x = ark_bls12_377::Fq2::new(
        fq_from_be_word_bls(&enc[0..64]),
        fq_from_be_word_bls(&enc[64..128]),
    );
    let y = ark_bls12_377::Fq2::new(
        fq_from_be_word_bls(&enc[128..192]),
        fq_from_be_word_bls(&enc[192..256]),
    );
    let q = ark_bls12_377::G2Affine::new_unchecked(x, y);
    assert_eq!(p, q);
}

#[test]
fn bw6_g1_encoding_round_trips_through_the_consumer_decoding() {
    let mut rng = rand::rngs::StdRng::seed_from_u64(9);
    let p = ark_bw6_761::G1Projective::rand(&mut rng).into_affine();
    let enc = bw6761::encode_g1(&le_coords_g1_bw6(&p));
    assert_eq!(enc.len(), 192);
    let x = fq_from_be_word_bw6(&enc[0..96]);
    let y = fq_from_be_word_bw6(&enc[96..192]);
    let q = ark_bw6_761::G1Affine::new_unchecked(x, y);
    assert_eq!(p, q);
}
