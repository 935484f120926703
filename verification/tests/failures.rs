use ark_serialize::CanonicalDeserialize;
use rand::SeedableRng;

use pairing_vectors::bw6761;
use pairing_vectors::records::GenError;

fn bw6_fq(word: &[u8]) -> ark_bw6_761::Fq {
    let mut le = word.to_vec();
    le.reverse();
    ark_bw6_761::Fq::deserialize_uncompressed(&le[..]).unwrap()
}

fn bw6_g1(enc: &[u8]) -> ark_bw6_761::G1Affine {
    ark_bw6_761::G1Affine::new_unchecked(bw6_fq(&enc[0..96]), bw6_fq(&enc[96..192]))
}

fn bw6_g2(enc: &[u8]) -> ark_bw6_761::G2Affine {
    ark_bw6_761::G2Affine::new_unchecked(bw6_fq(&enc[0..96]), bw6_fq(&enc[96..192]))
}

fn comps_to_g1(c: &[Vec<u8>]) -> ark_bw6_761::G1Affine {
    let mut x = c[0].clone();
    let mut y = c[1].clone();
    x.reverse();
    y.reverse();
    let mut enc = x;
    enc.extend(y);
    bw6_g1(&enc)
}

fn comps_to_g2(c: &[Vec<u8>]) -> ark_bw6_761::G2Affine {
    let mut x = c[0].clone();
    let mut y = c[1].clone();
    x.reverse();
    y.reverse();
    let mut enc = x;
    enc.extend(y);
    bw6_g2(&enc)
}

#[test]
fn invalid_length_vectors_cover_empty_short_and_long() {
    let vs = bw6761::gen_fail_vectors(384);
    assert_eq!(vs.len(), 3);

    assert_eq!(vs[0].input, "");
    assert_eq!(vs[0].expected_error, "invalid input length");
    assert_eq!(vs[0].name, "invalid_input_length_empty");

    assert_eq!(vs[1].input, hex::encode(vec![0u8; 383]));
    assert_eq!(vs[1].expected_error, "invalid input length");
    assert_eq!(vs[1].name, "invalid_input_length_short");

    assert_eq!(vs[2].input, hex::encode(vec![1u8; 385]));
    assert_eq!(vs[2].expected_error, "invalid input length");
    assert_eq!(vs[2].name, "invalid_input_length_large");
}

#[test]
fn fail_g1_add_vectors_isolate_one_defect_each() {
    let mut rng = rand::rngs::StdRng::seed_from_u64(21);
    let vs = bw6761::gen_fail_g1_add_vectors(&mut rng, 1000).unwrap();
    assert_eq!(vs.len(), 5);
    for v in vs[0..3].iter() {
        assert_eq!(v.expected_error, "invalid input length");
    }

    let large = hex::decode(&vs[3].input).unwrap();
    assert_eq!(large.len(), 384);
    assert_eq!(&large[192..288], &bw6761::encoded_fe_larger_than_modulus()[..]);
    assert!(large[288..384].iter().all(|b| *b == 0u8));
    assert_eq!(vs[3].expected_error, "must be less than modulus");
    assert_eq!(vs[3].name, "large_field_element");

    let noc = hex::decode(&vs[4].input).unwrap();
    assert_eq!(noc.len(), 384);
    let first = bw6_g1(&noc[0..192]);
    assert!(first.is_on_curve());
    let defective = bw6_g1(&noc[192..384]);
    assert!(!defective.is_on_curve());
    assert_eq!(vs[4].expected_error, "point is not on curve");
    assert_eq!(vs[4].name, "point_not_on_curve");
}

#[test]
fn fail_g1_mul_large_field_element_vector_is_fixed() {
    let mut rng = rand::rngs::StdRng::seed_from_u64(22);
    let vs = bw6761::gen_fail_g1_mul_vectors(&mut rng, 1000).unwrap();
    assert_eq!(vs.len(), 5);
    let mut expected_input = bw6761::encoded_fe_larger_than_modulus();
    expected_input.extend(vec![0u8; 96]);
    expected_input.extend(vec![0u8; 64]);
    assert_eq!(vs[3].input, hex::encode(expected_input));
    assert_eq!(vs[3].expected_error, "must be less than modulus");

    let noc = hex::decode(&vs[4].input).unwrap();
    assert_eq!(noc.len(), 256);
    assert!(!bw6_g1(&noc[0..192]).is_on_curve());
    assert!(noc[192..256].iter().all(|b| *b == 0u8));
}

#[test]
fn fail_multiexp_vectors_put_the_defect_in_the_third_slot() {
    let mut rng = rand::rngs::StdRng::seed_from_u64(23);
    let vs = bw6761::gen_fail_g1_multiexp_vectors(&mut rng, 1000).unwrap();
    assert_eq!(vs.len(), 5);
    let large = hex::decode(&vs[3].input).unwrap();
    assert_eq!(large.len(), 768);
    assert_eq!(&large[512..608], &bw6761::encoded_fe_larger_than_modulus()[..]);
    let noc = hex::decode(&vs[4].input).unwrap();
    assert_eq!(noc.len(), 768);
    assert!(bw6_g1(&noc[0..192]).is_on_curve());
    assert!(bw6_g1(&noc[256..448]).is_on_curve());
    assert!(!bw6_g1(&noc[512..704]).is_on_curve());
}

#[test]
fn sampled_points_off_the_curve_fail_the_curve_equation() {
    let mut rng = rand::rngs::StdRng::seed_from_u64(24);
    let c1 = bw6761::rand_g1_point_not_on_curve(&mut rng, 1000).unwrap();
    assert!(!comps_to_g1(&c1).is_on_curve());
    let c2 = bw6761::rand_g2_point_not_on_curve(&mut rng, 1000).unwrap();
    assert!(!comps_to_g2(&c2).is_on_curve());
}

#[test]
fn wrong_subgroup_g1_point_is_on_curve_but_outside_the_subgroup() {
    let mut rng = rand::rngs::StdRng::seed_from_u64(25);
    let c = bw6761::rand_g1_point_not_on_correct_subgroup(&mut rng, 1000).unwrap();
    let p = comps_to_g1(&c);
    assert!(p.is_on_curve());
    assert!(!p.is_in_correct_subgroup_assuming_on_curve());
}

#[test]
fn wrong_subgroup_g2_point_is_on_curve_but_outside_the_subgroup() {
    let mut rng = rand::rngs::StdRng::seed_from_u64(26);
    let c = bw6761::rand_g2_point_not_on_correct_subgroup(&mut rng, 1000).unwrap();
    let p = comps_to_g2(&c);
    assert!(p.is_on_curve());
    assert!(!p.is_in_correct_subgroup_assuming_on_curve());
}

#[test]
fn fail_pairing_vectors_cover_all_defect_categories() {
    let mut rng = rand::rngs::StdRng::seed_from_u64(27);
    let vs = bw6761::gen_fail_pairing(&mut rng, 1000).unwrap();
    assert_eq!(vs.len(), 8);
    for v in vs[0..3].iter() {
        assert_eq!(v.expected_error, "invalid input length");
    }
    assert_eq!(vs[3].expected_error, "must be less than modulus");
    assert_eq!(vs[3].name, "large_field_element");

    assert_eq!(vs[4].expected_error, "point is not on curve");
    assert_eq!(vs[4].name, "point_not_on_curve_g1");
    let in4 = hex::decode(&vs[4].input).unwrap();
    assert_eq!(in4.len(), 1152);
    assert!(!bw6_g1(&in4[768..960]).is_on_curve());

    assert_eq!(vs[5].expected_error, "point is not on curve");
    assert_eq!(vs[5].name, "point_not_on_curve_g2");
    let in5 = hex::decode(&vs[5].input).unwrap();
    assert!(!bw6_g2(&in5[960..1152]).is_on_curve());

    assert_eq!(vs[6].expected_error, "g1 point is not on correct subgroup");
    assert_eq!(vs[6].name, "incorrect_subgroup_g1");
    let in6 = hex::decode(&vs[6].input).unwrap();
    let s1 = bw6_g1(&in6[768..960]);
    assert!(s1.is_on_curve());
    assert!(!s1.is_in_correct_subgroup_assuming_on_curve());

    assert_eq!(vs[7].expected_error, "g2 point is not on correct subgroup");
    assert_eq!(vs[7].name, "incorrect_subgroup_g2");
    let in7 = hex::decode(&vs[7].input).unwrap();
    let s2 = bw6_g2(&in7[960..1152]);
    assert!(s2.is_on_curve());
    assert!(!s2.is_in_correct_subgroup_assuming_on_curve());
}

#[test]
fn exhausted_search_reports_its_error() {
    let mut rng = rand::rngs::StdRng::seed_from_u64(28);
    let r = bw6761::rand_g1_point_not_on_curve(&mut rng, 0);
    assert_eq!(r.unwrap_err(), GenError::SearchExhausted);
}

#[test]
fn non_canonical_operand_bytes_report_an_arithmetic_error() {
    let bad_point = vec![vec![0xffu8; 96], vec![0xffu8; 96]];
    let scalar = {
        let mut e = vec![0u8; 48];
        e[0] = 1u8;
        e
    };
    let r = bw6761::g1_scale_point(&bad_point, &scalar);
    assert_eq!(r.unwrap_err(), GenError::Arithmetic);
}
