//! Vector generation for the curve family with 96-byte base-field
//! elements used as words directly (no coordinate padding), 48-byte
//! scalars padded to a 64-byte double word, and both groups defined over
//! the base field itself.
//!
//! Group and field arithmetic is supplied by the external library
//! `ark_bw6_761`; every call to it goes through a trusted wrapper that
//! moves nothing but plain bytes.  A point is carried as its two affine
//! coordinates, each the canonical little-endian serialization of the
//! coordinate's field element; the all-zero coordinate pair stands for
//! the point at infinity.
//!
//! Besides the positive generators this family also produces the
//! malformed-input vectors: invalid lengths, an encoded element at least
//! as large as the base-field modulus, points off the curve, and points
//! on the curve but outside the prime-order subgroup.

use vstd::prelude::*;

use crate::codec::{
    bytes_all_zero, comps_all_zero, comps_view, comps_wf, copy_comps, encode_point,
    encode_scalar_word, extend_bytes, hex_of, hex_string, is_zero_comps, is_zero_seq,
    make_zero_bytes, point_bytes, scalar_word, zero_bytes, zero_comps, zero_comps_vec,
};
use crate::profile::CurveProfile;
use crate::records::{
    dec_str, false_sentinel, false_sentinel_bytes, invalid_length_triple, invalid_length_vectors,
    numbered_name, true_sentinel, true_sentinel_bytes, GenError, VectorFail, VectorSuccess,
};

use ark_ec::short_weierstrass::SWCurveConfig;
use ark_ec::{AffineRepr, CurveGroup};
use ark_ff::Field;
use ark_serialize::{CanonicalDeserialize, CanonicalSerialize};
use ark_std::UniformRand;
use rand::rngs::StdRng;

verus! {

/// The byte geometry of this family's calldata convention.
pub open spec fn profile_spec() -> CurveProfile {
    CurveProfile {
        fe_size: 96,
        word_size: 96,
        scalar_size: 48,
        scalar_word_size: 64,
        g1_ext: 1,
        g2_ext: 1,
    }
}

/// The profile instance, validated once at construction.
pub fn profile() -> (p: CurveProfile)
    ensures
        p == profile_spec(),
        p.wf(),
{
    CurveProfile {
        fe_size: 96,
        word_size: 96,
        scalar_size: 48,
        scalar_word_size: 64,
        g1_ext: 1,
        g2_ext: 1,
    }
}

/// Well-formed G1 coordinates: two 96-byte coordinates.
pub open spec fn g1_wf(c: Seq<Seq<u8>>) -> bool {
    comps_wf(c, 2, 96)
}

/// Well-formed G2 coordinates: also two 96-byte coordinates, since this
/// family's G2 is defined over the base field itself.
pub open spec fn g2_wf(c: Seq<Seq<u8>>) -> bool {
    comps_wf(c, 2, 96)
}

/// Well-formed scalar bytes.
pub open spec fn fr_wf(e: Seq<u8>) -> bool {
    e.len() == 48
}

/// Well-formed base-field element bytes.
pub open spec fn fq_wf(e: Seq<u8>) -> bool {
    e.len() == 96
}

/// What the external G1 addition returns for the given canonical affine
/// coordinate bytes.
pub uninterp spec fn g1_sum_of(a: Seq<Seq<u8>>, b: Seq<Seq<u8>>) -> Seq<Seq<u8>>;

/// What the external G2 addition returns.
pub uninterp spec fn g2_sum_of(a: Seq<Seq<u8>>, b: Seq<Seq<u8>>) -> Seq<Seq<u8>>;

/// What the external G1 scalar multiplication returns.
pub uninterp spec fn g1_smul_of(p: Seq<Seq<u8>>, e: Seq<u8>) -> Seq<Seq<u8>>;

/// What the external G2 scalar multiplication returns.
pub uninterp spec fn g2_smul_of(p: Seq<Seq<u8>>, e: Seq<u8>) -> Seq<Seq<u8>>;

/// What the external scalar-field multiplication returns.
pub uninterp spec fn fr_mul_of(a: Seq<u8>, b: Seq<u8>) -> Seq<u8>;

/// What the external scalar-field addition returns.
pub uninterp spec fn fr_add_of(a: Seq<u8>, b: Seq<u8>) -> Seq<u8>;

/// What the external scalar-field negation returns.
pub uninterp spec fn fr_neg_of(a: Seq<u8>) -> Seq<u8>;

/// What the external base-field multiplication returns.
pub uninterp spec fn fq_mul_of(a: Seq<u8>, b: Seq<u8>) -> Seq<u8>;

/// What the external base-field addition returns.
pub uninterp spec fn fq_add_of(a: Seq<u8>, b: Seq<u8>) -> Seq<u8>;

/// What the external base-field square root returns: `None` when the
/// input is non-canonical or has no square root.
pub uninterp spec fn fq_sqrt_of(a: Seq<u8>) -> Option<Seq<u8>>;

/// Whether the affine point read from the given coordinate bytes
/// satisfies the external G1 curve equation.
pub uninterp spec fn g1_on_curve_of(c: Seq<Seq<u8>>) -> bool;

/// Whether the external G1 subgroup-membership predicate (which assumes
/// the point is on the curve) holds of the given coordinate bytes.
pub uninterp spec fn g1_in_subgroup_of(c: Seq<Seq<u8>>) -> bool;

/// The G2 counterpart of `g1_on_curve_of`.
pub uninterp spec fn g2_on_curve_of(c: Seq<Seq<u8>>) -> bool;

/// The G2 counterpart of `g1_in_subgroup_of`.
pub uninterp spec fn g2_in_subgroup_of(c: Seq<Seq<u8>>) -> bool;

/// Whether the external base-field deserialization accepts the given
/// bytes as one canonical field element.
pub uninterp spec fn fq_canonical_of(b: Seq<u8>) -> bool;

/// Whether the external scalar-field deserialization accepts the given
/// bytes as one canonical scalar.
pub uninterp spec fn fr_canonical_of(b: Seq<u8>) -> bool;

/// Both coordinates of a point accepted as canonical field elements.
pub open spec fn point_canonical(c: Seq<Seq<u8>>) -> bool {
    fq_canonical_of(c[0]) && fq_canonical_of(c[1])
}

/// A valid G1 group element in coordinate form: either the all-zero
/// identity sentinel or an on-curve point of the prime-order subgroup.
pub open spec fn g1_valid(c: Seq<Seq<u8>>) -> bool {
    &&& g1_wf(c)
    &&& (is_zero_comps(c) || (g1_on_curve_of(c) && g1_in_subgroup_of(c)))
}

/// The G2 counterpart of `g1_valid`.
pub open spec fn g2_valid(c: Seq<Seq<u8>>) -> bool {
    &&& g2_wf(c)
    &&& (is_zero_comps(c) || (g2_on_curve_of(c) && g2_in_subgroup_of(c)))
}

/// Relies on `ark_bw6_761` / `ark_ec`: a uniformly random G1 group
/// element, as the canonical little-endian bytes of its affine
/// coordinates.  Each coordinate serializes to exactly 96 bytes, and the
/// sampling cofactor-clears an on-curve point, so every outcome is a
/// subgroup element: an on-curve point in the subgroup, or (should the
/// cleared point be the identity) the all-zero pair.
#[verifier::external_body]
fn g1_rand(rng: &mut StdRng) -> (r: Option<Vec<Vec<u8>>>)
    ensures
        r matches Some(c) ==> g1_valid(comps_view(&c)),
{
    let p = ark_bw6_761::G1Projective::rand(rng).into_affine();
    let mut x: Vec<u8> = Vec::new();
    let mut y: Vec<u8> = Vec::new();
    p.x.serialize_uncompressed(&mut x).ok()?;
    p.y.serialize_uncompressed(&mut y).ok()?;
    Some(vec![x, y])
}

/// Relies on `ark_bw6_761` / `ark_ec`: a uniformly random G2 group
/// element, as coordinate bytes; as for G1, every outcome is a subgroup
/// element or the all-zero identity pair.
#[verifier::external_body]
fn g2_rand(rng: &mut StdRng) -> (r: Option<Vec<Vec<u8>>>)
    ensures
        r matches Some(c) ==> g2_valid(comps_view(&c)),
{
    let p = ark_bw6_761::G2Projective::rand(rng).into_affine();
    let mut x: Vec<u8> = Vec::new();
    let mut y: Vec<u8> = Vec::new();
    p.x.serialize_uncompressed(&mut x).ok()?;
    p.y.serialize_uncompressed(&mut y).ok()?;
    Some(vec![x, y])
}

/// Relies on `ark_bw6_761`: a uniformly random scalar, as its canonical
/// 48 little-endian bytes.
#[verifier::external_body]
fn fr_rand(rng: &mut StdRng) -> (r: Option<Vec<u8>>)
    ensures
        r matches Some(e) ==> fr_wf(e@),
{
    let e = ark_bw6_761::Fr::rand(rng);
    let mut buf: Vec<u8> = Vec::new();
    e.serialize_uncompressed(&mut buf).ok()?;
    Some(buf)
}

/// Relies on `ark_bw6_761`: a uniformly random base-field element, as its
/// canonical 96 little-endian bytes.
#[verifier::external_body]
fn fq_rand(rng: &mut StdRng) -> (r: Option<Vec<u8>>)
    ensures
        r matches Some(e) ==> fq_wf(e@),
{
    let e = ark_bw6_761::Fq::rand(rng);
    let mut buf: Vec<u8> = Vec::new();
    e.serialize_uncompressed(&mut buf).ok()?;
    Some(buf)
}

/// Relies on `ark_bw6_761` / `ark_ec`: the fixed prime-subgroup generator
/// of G1, as coordinate bytes.
#[verifier::external_body]
fn g1_generator() -> (r: Option<Vec<Vec<u8>>>)
    ensures
        r matches Some(c) ==> g1_wf(comps_view(&c)),
{
    let p = ark_bw6_761::G1Affine::generator();
    let mut x: Vec<u8> = Vec::new();
    let mut y: Vec<u8> = Vec::new();
    p.x.serialize_uncompressed(&mut x).ok()?;
    p.y.serialize_uncompressed(&mut y).ok()?;
    Some(vec![x, y])
}

/// Relies on `ark_bw6_761` / `ark_ec`: the fixed prime-subgroup generator
/// of G2, as coordinate bytes.
#[verifier::external_body]
fn g2_generator() -> (r: Option<Vec<Vec<u8>>>)
    ensures
        r matches Some(c) ==> g2_wf(comps_view(&c)),
{
    let p = ark_bw6_761::G2Affine::generator();
    let mut x: Vec<u8> = Vec::new();
    let mut y: Vec<u8> = Vec::new();
    p.x.serialize_uncompressed(&mut x).ok()?;
    p.y.serialize_uncompressed(&mut y).ok()?;
    Some(vec![x, y])
}

/// Relies on `ark_bw6_761` / `ark_ec`: reads two G1 points from their
/// canonical affine coordinate bytes, adds them with the external group
/// law, and returns the sum's coordinate bytes.  `None` exactly when the
/// external library rejects a coordinate as non-canonical.  The result is
/// a function of the input bytes alone.
#[verifier::external_body]
fn g1_add_bytes(a: &Vec<Vec<u8>>, b: &Vec<Vec<u8>>) -> (r: Option<Vec<Vec<u8>>>)
    requires
        a@.len() == 2,
        b@.len() == 2,
    ensures
        (r is Some) == (fq_canonical_of(comps_view(a)[0]) && fq_canonical_of(comps_view(a)[1])
            && fq_canonical_of(comps_view(b)[0]) && fq_canonical_of(comps_view(b)[1])),
        r matches Some(s) ==> g1_wf(comps_view(&s)) && comps_view(&s) == g1_sum_of(
            comps_view(a),
            comps_view(b),
        ),
{
    let ax = ark_bw6_761::Fq::deserialize_uncompressed(a[0].as_slice()).ok()?;
    let ay = ark_bw6_761::Fq::deserialize_uncompressed(a[1].as_slice()).ok()?;
    let bx = ark_bw6_761::Fq::deserialize_uncompressed(b[0].as_slice()).ok()?;
    let by = ark_bw6_761::Fq::deserialize_uncompressed(b[1].as_slice()).ok()?;
    let s = (ark_bw6_761::G1Affine::new_unchecked(ax, ay)
        + ark_bw6_761::G1Affine::new_unchecked(bx, by)).into_affine();
    let mut x: Vec<u8> = Vec::new();
    let mut y: Vec<u8> = Vec::new();
    s.x.serialize_uncompressed(&mut x).ok()?;
    s.y.serialize_uncompressed(&mut y).ok()?;
    Some(vec![x, y])
}

/// Relies on `ark_bw6_761` / `ark_ec`: G2 point addition on coordinate
/// bytes, exactly as the G1 wrapper.
#[verifier::external_body]
fn g2_add_bytes(a: &Vec<Vec<u8>>, b: &Vec<Vec<u8>>) -> (r: Option<Vec<Vec<u8>>>)
    requires
        a@.len() == 2,
        b@.len() == 2,
    ensures
        (r is Some) == (fq_canonical_of(comps_view(a)[0]) && fq_canonical_of(comps_view(a)[1])
            && fq_canonical_of(comps_view(b)[0]) && fq_canonical_of(comps_view(b)[1])),
        r matches Some(s) ==> g2_wf(comps_view(&s)) && comps_view(&s) == g2_sum_of(
            comps_view(a),
            comps_view(b),
        ),
{
    let ax = ark_bw6_761::Fq::deserialize_uncompressed(a[0].as_slice()).ok()?;
    let ay = ark_bw6_761::Fq::deserialize_uncompressed(a[1].as_slice()).ok()?;
    let bx = ark_bw6_761::Fq::deserialize_uncompressed(b[0].as_slice()).ok()?;
    let by = ark_bw6_761::Fq::deserialize_uncompressed(b[1].as_slice()).ok()?;
    let s = (ark_bw6_761::G2Affine::new_unchecked(ax, ay)
        + ark_bw6_761::G2Affine::new_unchecked(bx, by)).into_affine();
    let mut x: Vec<u8> = Vec::new();
    let mut y: Vec<u8> = Vec::new();
    s.x.serialize_uncompressed(&mut x).ok()?;
    s.y.serialize_uncompressed(&mut y).ok()?;
    Some(vec![x, y])
}

/// Relies on `ark_bw6_761` / `ark_ec`: G1 scalar multiplication on
/// canonical bytes.  The result is a function of the input bytes alone.
#[verifier::external_body]
fn g1_mul_bytes(p: &Vec<Vec<u8>>, e: &Vec<u8>) -> (r: Option<Vec<Vec<u8>>>)
    requires
        p@.len() == 2,
    ensures
        (r is Some) == (fq_canonical_of(comps_view(p)[0]) && fq_canonical_of(comps_view(p)[1])
            && fr_canonical_of(e@)),
        r matches Some(s) ==> g1_wf(comps_view(&s)) && comps_view(&s) == g1_smul_of(
            comps_view(p),
            e@,
        ),
{
    let x = ark_bw6_761::Fq::deserialize_uncompressed(p[0].as_slice()).ok()?;
    let y = ark_bw6_761::Fq::deserialize_uncompressed(p[1].as_slice()).ok()?;
    let e = ark_bw6_761::Fr::deserialize_uncompressed(e.as_slice()).ok()?;
    let s = (ark_bw6_761::G1Affine::new_unchecked(x, y) * e).into_affine();
    let mut rx: Vec<u8> = Vec::new();
    let mut ry: Vec<u8> = Vec::new();
    s.x.serialize_uncompressed(&mut rx).ok()?;
    s.y.serialize_uncompressed(&mut ry).ok()?;
    Some(vec![rx, ry])
}

/// Relies on `ark_bw6_761` / `ark_ec`: G2 scalar multiplication on
/// canonical bytes.
#[verifier::external_body]
fn g2_mul_bytes(p: &Vec<Vec<u8>>, e: &Vec<u8>) -> (r: Option<Vec<Vec<u8>>>)
    requires
        p@.len() == 2,
    ensures
        (r is Some) == (fq_canonical_of(comps_view(p)[0]) && fq_canonical_of(comps_view(p)[1])
            && fr_canonical_of(e@)),
        r matches Some(s) ==> g2_wf(comps_view(&s)) && comps_view(&s) == g2_smul_of(
            comps_view(p),
            e@,
        ),
{
    let x = ark_bw6_761::Fq::deserialize_uncompressed(p[0].as_slice()).ok()?;
    let y = ark_bw6_761::Fq::deserialize_uncompressed(p[1].as_slice()).ok()?;
    let e = ark_bw6_761::Fr::deserialize_uncompressed(e.as_slice()).ok()?;
    let s = (ark_bw6_761::G2Affine::new_unchecked(x, y) * e).into_affine();
    let mut rx: Vec<u8> = Vec::new();
    let mut ry: Vec<u8> = Vec::new();
    s.x.serialize_uncompressed(&mut rx).ok()?;
    s.y.serialize_uncompressed(&mut ry).ok()?;
    Some(vec![rx, ry])
}

/// Relies on `ark_bw6_761`: scalar-field multiplication on canonical
/// bytes.  The result is a function of the input bytes alone.
#[verifier::external_body]
fn fr_mul_bytes(a: &Vec<u8>, b: &Vec<u8>) -> (r: Option<Vec<u8>>)
    ensures
        r matches Some(c) ==> fr_wf(c@) && c@ == fr_mul_of(a@, b@),
{
    let x = ark_bw6_761::Fr::deserialize_uncompressed(a.as_slice()).ok()?;
    let y = ark_bw6_761::Fr::deserialize_uncompressed(b.as_slice()).ok()?;
    let mut buf: Vec<u8> = Vec::new();
    (x * y).serialize_uncompressed(&mut buf).ok()?;
    Some(buf)
}

/// Relies on `ark_bw6_761`: scalar-field addition on canonical bytes.
#[verifier::external_body]
fn fr_add_bytes(a: &Vec<u8>, b: &Vec<u8>) -> (r: Option<Vec<u8>>)
    ensures
        r matches Some(c) ==> fr_wf(c@) && c@ == fr_add_of(a@, b@),
{
    let x = ark_bw6_761::Fr::deserialize_uncompressed(a.as_slice()).ok()?;
    let y = ark_bw6_761::Fr::deserialize_uncompressed(b.as_slice()).ok()?;
    let mut buf: Vec<u8> = Vec::new();
    (x + y).serialize_uncompressed(&mut buf).ok()?;
    Some(buf)
}

/// Relies on `ark_bw6_761`: scalar-field negation on canonical bytes.
#[verifier::external_body]
fn fr_neg_bytes(a: &Vec<u8>) -> (r: Option<Vec<u8>>)
    ensures
        r matches Some(c) ==> fr_wf(c@) && c@ == fr_neg_of(a@),
{
    let x = ark_bw6_761::Fr::deserialize_uncompressed(a.as_slice()).ok()?;
    let mut buf: Vec<u8> = Vec::new();
    (-x).serialize_uncompressed(&mut buf).ok()?;
    Some(buf)
}

/// Relies on `ark_bw6_761`: base-field multiplication on canonical bytes.
#[verifier::external_body]
fn fq_mul_bytes(a: &Vec<u8>, b: &Vec<u8>) -> (r: Option<Vec<u8>>)
    ensures
        r matches Some(c) ==> fq_wf(c@) && c@ == fq_mul_of(a@, b@),
{
    let x = ark_bw6_761::Fq::deserialize_uncompressed(a.as_slice()).ok()?;
    let y = ark_bw6_761::Fq::deserialize_uncompressed(b.as_slice()).ok()?;
    let mut buf: Vec<u8> = Vec::new();
    (x * y).serialize_uncompressed(&mut buf).ok()?;
    Some(buf)
}

/// Relies on `ark_bw6_761`: base-field addition on canonical bytes.
#[verifier::external_body]
fn fq_add_bytes(a: &Vec<u8>, b: &Vec<u8>) -> (r: Option<Vec<u8>>)
    ensures
        r matches Some(c) ==> fq_wf(c@) && c@ == fq_add_of(a@, b@),
{
    let x = ark_bw6_761::Fq::deserialize_uncompressed(a.as_slice()).ok()?;
    let y = ark_bw6_761::Fq::deserialize_uncompressed(b.as_slice()).ok()?;
    let mut buf: Vec<u8> = Vec::new();
    (x + y).serialize_uncompressed(&mut buf).ok()?;
    Some(buf)
}

/// Relies on `ark_bw6_761` / `ark_ff`: the square root of a base-field
/// element read from canonical bytes, `None` when the bytes are
/// non-canonical or the element is not a square.  Which of the two roots
/// comes back is the external library's deterministic choice.
#[verifier::external_body]
fn fq_sqrt_bytes(a: &Vec<u8>) -> (r: Option<Vec<u8>>)
    ensures
        (r is Some) == (fq_sqrt_of(a@) is Some),
        r matches Some(y) ==> fq_wf(y@) && Some(y@) == fq_sqrt_of(a@),
{
    let x = ark_bw6_761::Fq::deserialize_uncompressed(a.as_slice()).ok()?;
    let y = x.sqrt()?;
    let mut buf: Vec<u8> = Vec::new();
    y.serialize_uncompressed(&mut buf).ok()?;
    Some(buf)
}

/// Relies on `ark_bw6_761`: the constant term `b` of the G1 curve
/// equation, as canonical little-endian bytes.
#[verifier::external_body]
fn g1_coeff_b_bytes() -> (r: Option<Vec<u8>>)
    ensures
        r matches Some(b) ==> fq_wf(b@),
{
    let b = <ark_bw6_761::g1::Config as SWCurveConfig>::COEFF_B;
    let mut buf: Vec<u8> = Vec::new();
    b.serialize_uncompressed(&mut buf).ok()?;
    Some(buf)
}

/// Relies on `ark_bw6_761`: the constant term `b` of the G2 curve
/// equation, as canonical little-endian bytes.
#[verifier::external_body]
fn g2_coeff_b_bytes() -> (r: Option<Vec<u8>>)
    ensures
        r matches Some(b) ==> fq_wf(b@),
{
    let b = <ark_bw6_761::g2::Config as SWCurveConfig>::COEFF_B;
    let mut buf: Vec<u8> = Vec::new();
    b.serialize_uncompressed(&mut buf).ok()?;
    Some(buf)
}

/// Relies on `ark_bw6_761` / `ark_ec`: whether the affine point read from
/// the given canonical coordinate bytes satisfies the G1 curve equation.
/// `None` when a coordinate is non-canonical.  The result is a function
/// of the input bytes alone.
#[verifier::external_body]
fn g1_on_curve_bytes(c: &Vec<Vec<u8>>) -> (r: Option<bool>)
    requires
        c@.len() == 2,
    ensures
        r matches Some(t) ==> t == g1_on_curve_of(comps_view(c)),
{
    let x = ark_bw6_761::Fq::deserialize_uncompressed(c[0].as_slice()).ok()?;
    let y = ark_bw6_761::Fq::deserialize_uncompressed(c[1].as_slice()).ok()?;
    Some(ark_bw6_761::G1Affine::new_unchecked(x, y).is_on_curve())
}

/// Relies on `ark_bw6_761` / `ark_ec`: the G1 subgroup-membership
/// predicate, which assumes the point lies on the curve, applied to the
/// point read from the given coordinate bytes.
#[verifier::external_body]
fn g1_in_subgroup_bytes(c: &Vec<Vec<u8>>) -> (r: Option<bool>)
    requires
        c@.len() == 2,
    ensures
        r matches Some(t) ==> t == g1_in_subgroup_of(comps_view(c)),
{
    let x = ark_bw6_761::Fq::deserialize_uncompressed(c[0].as_slice()).ok()?;
    let y = ark_bw6_761::Fq::deserialize_uncompressed(c[1].as_slice()).ok()?;
    Some(ark_bw6_761::G1Affine::new_unchecked(x, y).is_in_correct_subgroup_assuming_on_curve())
}

/// The G2 counterpart of the on-curve wrapper.
#[verifier::external_body]
fn g2_on_curve_bytes(c: &Vec<Vec<u8>>) -> (r: Option<bool>)
    requires
        c@.len() == 2,
    ensures
        r matches Some(t) ==> t == g2_on_curve_of(comps_view(c)),
{
    let x = ark_bw6_761::Fq::deserialize_uncompressed(c[0].as_slice()).ok()?;
    let y = ark_bw6_761::Fq::deserialize_uncompressed(c[1].as_slice()).ok()?;
    Some(ark_bw6_761::G2Affine::new_unchecked(x, y).is_on_curve())
}

/// The G2 counterpart of the subgroup-membership wrapper.
#[verifier::external_body]
fn g2_in_subgroup_bytes(c: &Vec<Vec<u8>>) -> (r: Option<bool>)
    requires
        c@.len() == 2,
    ensures
        r matches Some(t) ==> t == g2_in_subgroup_of(comps_view(c)),
{
    let x = ark_bw6_761::Fq::deserialize_uncompressed(c[0].as_slice()).ok()?;
    let y = ark_bw6_761::Fq::deserialize_uncompressed(c[1].as_slice()).ok()?;
    Some(ark_bw6_761::G2Affine::new_unchecked(x, y).is_in_correct_subgroup_assuming_on_curve())
}

/// The value of a G1 addition with the identity sentinel handled by the
/// group law.
pub open spec fn g1_combine(a: Seq<Seq<u8>>, b: Seq<Seq<u8>>) -> Seq<Seq<u8>> {
    if is_zero_comps(b) {
        a
    } else if is_zero_comps(a) {
        b
    } else {
        g1_sum_of(a, b)
    }
}

/// The G2 counterpart of `g1_combine`.
pub open spec fn g2_combine(a: Seq<Seq<u8>>, b: Seq<Seq<u8>>) -> Seq<Seq<u8>> {
    if is_zero_comps(b) {
        a
    } else if is_zero_comps(a) {
        b
    } else {
        g2_sum_of(a, b)
    }
}

/// The value of a G1 scalar multiplication with the zero scalar handled
/// by the group law.
pub open spec fn g1_scale(p: Seq<Seq<u8>>, e: Seq<u8>) -> Seq<Seq<u8>> {
    if is_zero_seq(e) {
        zero_comps(2, 96)
    } else {
        g1_smul_of(p, e)
    }
}

/// The G2 counterpart of `g1_scale`.
pub open spec fn g2_scale(p: Seq<Seq<u8>>, e: Seq<u8>) -> Seq<Seq<u8>> {
    if is_zero_seq(e) {
        zero_comps(2, 96)
    } else {
        g2_smul_of(p, e)
    }
}

/// Adds two G1 points given as coordinate bytes.
pub fn g1_add_points(a: &Vec<Vec<u8>>, b: &Vec<Vec<u8>>) -> (r: Result<Vec<Vec<u8>>, GenError>)
    requires
        g1_wf(comps_view(a)),
        g1_wf(comps_view(b)),
    ensures
        r matches Ok(c) ==> g1_wf(comps_view(&c)) && comps_view(&c) == g1_combine(
            comps_view(a),
            comps_view(b),
        ),
        (r is Ok) == (is_zero_comps(comps_view(b)) || is_zero_comps(comps_view(a)) || (
        point_canonical(comps_view(a)) && point_canonical(comps_view(b)))),
{
    if comps_all_zero(b) {
        Ok(copy_comps(a))
    } else if comps_all_zero(a) {
        Ok(copy_comps(b))
    } else {
        match g1_add_bytes(a, b) {
            Some(c) => Ok(c),
            None => Err(GenError::Arithmetic),
        }
    }
}

/// Adds two G2 points given as coordinate bytes.
pub fn g2_add_points(a: &Vec<Vec<u8>>, b: &Vec<Vec<u8>>) -> (r: Result<Vec<Vec<u8>>, GenError>)
    requires
        g2_wf(comps_view(a)),
        g2_wf(comps_view(b)),
    ensures
        r matches Ok(c) ==> g2_wf(comps_view(&c)) && comps_view(&c) == g2_combine(
            comps_view(a),
            comps_view(b),
        ),
        (r is Ok) == (is_zero_comps(comps_view(b)) || is_zero_comps(comps_view(a)) || (
        point_canonical(comps_view(a)) && point_canonical(comps_view(b)))),
{
    if comps_all_zero(b) {
        Ok(copy_comps(a))
    } else if comps_all_zero(a) {
        Ok(copy_comps(b))
    } else {
        match g2_add_bytes(a, b) {
            Some(c) => Ok(c),
            None => Err(GenError::Arithmetic),
        }
    }
}

/// Multiplies a G1 point by a scalar, both given as canonical bytes.
pub fn g1_scale_point(p: &Vec<Vec<u8>>, e: &Vec<u8>) -> (r: Result<Vec<Vec<u8>>, GenError>)
    requires
        g1_wf(comps_view(p)),
    ensures
        r matches Ok(c) ==> g1_wf(comps_view(&c)) && comps_view(&c) == g1_scale(
            comps_view(p),
            e@,
        ),
        (r is Ok) == (is_zero_seq(e@) || (point_canonical(comps_view(p)) && fr_canonical_of(
            e@,
        ))),
{
    if bytes_all_zero(e) {
        Ok(zero_comps_vec(2, 96))
    } else {
        match g1_mul_bytes(p, e) {
            Some(c) => Ok(c),
            None => Err(GenError::Arithmetic),
        }
    }
}

/// Multiplies a G2 point by a scalar, both given as canonical bytes.
pub fn g2_scale_point(p: &Vec<Vec<u8>>, e: &Vec<u8>) -> (r: Result<Vec<Vec<u8>>, GenError>)
    requires
        g2_wf(comps_view(p)),
    ensures
        r matches Ok(c) ==> g2_wf(comps_view(&c)) && comps_view(&c) == g2_scale(
            comps_view(p),
            e@,
        ),
        (r is Ok) == (is_zero_seq(e@) || (point_canonical(comps_view(p)) && fr_canonical_of(
            e@,
        ))),
{
    if bytes_all_zero(e) {
        Ok(zero_comps_vec(2, 96))
    } else {
        match g2_mul_bytes(p, e) {
            Some(c) => Ok(c),
            None => Err(GenError::Arithmetic),
        }
    }
}

/// Encodes a G1 point: the two 96-byte coordinates in big-endian order,
/// with no extra padding in this family.
pub fn encode_g1(point: &Vec<Vec<u8>>) -> (r: Vec<u8>)
    requires
        g1_wf(comps_view(point)),
    ensures
        r@ == point_bytes(profile_spec(), comps_view(point), 1),
        r@.len() == 192,
{
    let p = profile();
    assert(forall|i: int| 0 <= i < point@.len() ==> (#[trigger] point@[i])@.len() == 1
        * p.fe_size) by {
        assert(forall|i: int| 0 <= i < point@.len() ==> comps_view(point)[i] == (
        #[trigger] point@[i])@);
    }
    assert(point@.len() == comps_view(point).len());
    encode_point(&p, point, 1)
}

/// Encodes a G2 point, exactly as a G1 point in this family.
pub fn encode_g2(point: &Vec<Vec<u8>>) -> (r: Vec<u8>)
    requires
        g2_wf(comps_view(point)),
    ensures
        r@ == point_bytes(profile_spec(), comps_view(point), 1),
        r@.len() == 192,
{
    let p = profile();
    assert(forall|i: int| 0 <= i < point@.len() ==> (#[trigger] point@[i])@.len() == 1
        * p.fe_size) by {
        assert(forall|i: int| 0 <= i < point@.len() ==> comps_view(point)[i] == (
        #[trigger] point@[i])@);
    }
    assert(point@.len() == comps_view(point).len());
    encode_point(&p, point, 1)
}

/// Encodes a scalar: its canonical bytes in big-endian order, left-padded
/// to a 64-byte double word.
pub fn encode_fr(e: &Vec<u8>) -> (r: Vec<u8>)
    requires
        fr_wf(e@),
    ensures
        r@ == scalar_word(profile_spec(), e@),
        r@.len() == 64,
{
    let p = profile();
    encode_scalar_word(&p, e)
}

/// The fixed 96-byte big-endian constant, precomputed once for this
/// family, whose value is at least as large as the base-field modulus; it
/// is substituted for one encoded coordinate to build the
/// "must be less than modulus" vectors.
pub open spec fn oversized_fe() -> Seq<u8> {
    seq![
        0x01u8, 0x22u8, 0xe8u8, 0x24u8, 0xfbu8, 0x83u8, 0xceu8, 0x0au8, 0xd1u8, 0x87u8,
        0xc9u8, 0x40u8, 0x04u8, 0xfau8, 0xffu8, 0x3eu8, 0xb9u8, 0x26u8, 0x18u8, 0x6au8,
        0x81u8, 0xd1u8, 0x46u8, 0x88u8, 0x52u8, 0x82u8, 0x75u8, 0xefu8, 0x80u8, 0x87u8,
        0xbeu8, 0x41u8, 0x70u8, 0x7bu8, 0xa6u8, 0x38u8, 0xe5u8, 0x84u8, 0xe9u8, 0x19u8,
        0x03u8, 0xceu8, 0xbau8, 0xffu8, 0x25u8, 0xb4u8, 0x23u8, 0x04u8, 0x86u8, 0x89u8,
        0xc8u8, 0xedu8, 0x12u8, 0xf9u8, 0xfdu8, 0x90u8, 0x71u8, 0xdcu8, 0xd3u8, 0xdcu8,
        0x73u8, 0xebu8, 0xffu8, 0x2eu8, 0x98u8, 0xa1u8, 0x16u8, 0xc2u8, 0x56u8, 0x67u8,
        0xa8u8, 0xf8u8, 0x16u8, 0x0cu8, 0xf8u8, 0xaeu8, 0xeau8, 0xf0u8, 0xa4u8, 0x37u8,
        0xe6u8, 0x91u8, 0x3eu8, 0x68u8, 0x70u8, 0x00u8, 0x00u8, 0x82u8, 0xf4u8, 0x9du8,
        0x00u8, 0x00u8, 0x00u8, 0x00u8, 0x00u8, 0x8fu8,
    ]
}

/// The oversized encoded field element as bytes.
#[verifier::rlimit(40)]
pub fn encoded_fe_larger_than_modulus() -> (r: Vec<u8>)
    ensures
        r@ == oversized_fe(),
        r@.len() == 96,
{
    let v: Vec<u8> = vec![
        0x01u8, 0x22u8, 0xe8u8, 0x24u8, 0xfbu8, 0x83u8, 0xceu8, 0x0au8, 0xd1u8, 0x87u8,
        0xc9u8, 0x40u8, 0x04u8, 0xfau8, 0xffu8, 0x3eu8, 0xb9u8, 0x26u8, 0x18u8, 0x6au8,
        0x81u8, 0xd1u8, 0x46u8, 0x88u8, 0x52u8, 0x82u8, 0x75u8, 0xefu8, 0x80u8, 0x87u8,
        0xbeu8, 0x41u8, 0x70u8, 0x7bu8, 0xa6u8, 0x38u8, 0xe5u8, 0x84u8, 0xe9u8, 0x19u8,
        0x03u8, 0xceu8, 0xbau8, 0xffu8, 0x25u8, 0xb4u8, 0x23u8, 0x04u8, 0x86u8, 0x89u8,
        0xc8u8, 0xedu8, 0x12u8, 0xf9u8, 0xfdu8, 0x90u8, 0x71u8, 0xdcu8, 0xd3u8, 0xdcu8,
        0x73u8, 0xebu8, 0xffu8, 0x2eu8, 0x98u8, 0xa1u8, 0x16u8, 0xc2u8, 0x56u8, 0x67u8,
        0xa8u8, 0xf8u8, 0x16u8, 0x0cu8, 0xf8u8, 0xaeu8, 0xeau8, 0xf0u8, 0xa4u8, 0x37u8,
        0xe6u8, 0x91u8, 0x3eu8, 0x68u8, 0x70u8, 0x00u8, 0x00u8, 0x82u8, 0xf4u8, 0x9du8,
        0x00u8, 0x00u8, 0x00u8, 0x00u8, 0x00u8, 0x8fu8,
    ];
    proof {
        assert(v@ =~= oversized_fe());
    }
    v
}

/// The name of a numbered vector: `<stem>_<idx>` in decimal.
pub open spec fn vector_name(stem: Seq<char>, idx: int) -> Seq<char> {
    stem + seq!['_'] + dec_str(idx as nat)
}

/// An addition vector built from operands `a` and `b`, carrying its
/// 1-based number in its name.
pub open spec fn g1_add_witness(v: VectorSuccess, a: Seq<Seq<u8>>, b: Seq<Seq<u8>>, idx: int) -> bool {
    let p = profile_spec();
    &&& g1_wf(a)
    &&& g1_wf(b)
    &&& g1_wf(g1_combine(a, b))
    &&& idx >= 1
    &&& v.input@ == hex_of(point_bytes(p, a, 1) + point_bytes(p, b, 1))
    &&& v.expected@ == hex_of(point_bytes(p, g1_combine(a, b), 1))
    &&& v.name matches Some(nm) && nm@ == vector_name("g1_add"@, idx)
}

pub open spec fn is_g1_add_vector(v: VectorSuccess, idx: int) -> bool {
    exists|a: Seq<Seq<u8>>, b: Seq<Seq<u8>>| g1_add_witness(v, a, b, idx)
}

pub open spec fn g2_add_witness(v: VectorSuccess, a: Seq<Seq<u8>>, b: Seq<Seq<u8>>, idx: int) -> bool {
    let p = profile_spec();
    &&& g2_wf(a)
    &&& g2_wf(b)
    &&& g2_wf(g2_combine(a, b))
    &&& idx >= 1
    &&& v.input@ == hex_of(point_bytes(p, a, 1) + point_bytes(p, b, 1))
    &&& v.expected@ == hex_of(point_bytes(p, g2_combine(a, b), 1))
    &&& v.name matches Some(nm) && nm@ == vector_name("g2_add"@, idx)
}

pub open spec fn is_g2_add_vector(v: VectorSuccess, idx: int) -> bool {
    exists|a: Seq<Seq<u8>>, b: Seq<Seq<u8>>| g2_add_witness(v, a, b, idx)
}

pub open spec fn g1_mul_witness(v: VectorSuccess, a: Seq<Seq<u8>>, e: Seq<u8>, idx: int) -> bool {
    let p = profile_spec();
    &&& g1_wf(a)
    &&& fr_wf(e)
    &&& g1_wf(g1_scale(a, e))
    &&& idx >= 1
    &&& v.input@ == hex_of(point_bytes(p, a, 1) + scalar_word(p, e))
    &&& v.expected@ == hex_of(point_bytes(p, g1_scale(a, e), 1))
    &&& v.name matches Some(nm) && nm@ == vector_name("g1_mul"@, idx)
}

pub open spec fn is_g1_mul_vector(v: VectorSuccess, idx: int) -> bool {
    exists|a: Seq<Seq<u8>>, e: Seq<u8>| g1_mul_witness(v, a, e, idx)
}

pub open spec fn g2_mul_witness(v: VectorSuccess, a: Seq<Seq<u8>>, e: Seq<u8>, idx: int) -> bool {
    let p = profile_spec();
    &&& g2_wf(a)
    &&& fr_wf(e)
    &&& g2_wf(g2_scale(a, e))
    &&& idx >= 1
    &&& v.input@ == hex_of(point_bytes(p, a, 1) + scalar_word(p, e))
    &&& v.expected@ == hex_of(point_bytes(p, g2_scale(a, e), 1))
    &&& v.name matches Some(nm) && nm@ == vector_name("g2_mul"@, idx)
}

pub open spec fn is_g2_mul_vector(v: VectorSuccess, idx: int) -> bool {
    exists|a: Seq<Seq<u8>>, e: Seq<u8>| g2_mul_witness(v, a, e, idx)
}

/// Generates `n` independent G1 addition vectors.
pub fn gen_g1_add_vectors(rng: &mut StdRng, n: usize) -> (r: Result<Vec<VectorSuccess>, GenError>)
    ensures
        n == 0 ==> r is Ok,
        r matches Ok(vs) ==> vs@.len() == n && forall|i: int|
            0 <= i < n ==> is_g1_add_vector(#[trigger] vs@[i], i + 1),
{
    let mut vectors: Vec<VectorSuccess> = Vec::new();
    for it in 0..n
        invariant
            vectors@.len() == it,
            forall|k: int| 0 <= k < it ==> is_g1_add_vector(#[trigger] vectors@[k], k + 1),
    {
        let a = match g1_rand(rng) {
            Some(c) => c,
            None => { return Err(GenError::Arithmetic) },
        };
        let b = match g1_rand(rng) {
            Some(c) => c,
            None => { return Err(GenError::Arithmetic) },
        };
        let sum = match g1_add_points(&a, &b) {
            Ok(c) => c,
            Err(e) => { return Err(e) },
        };
        let mut input_bytes = encode_g1(&a);
        let b_bytes = encode_g1(&b);
        extend_bytes(&mut input_bytes, &b_bytes);
        let expected_bytes = encode_g1(&sum);
        let nm = numbered_name("g1_add", (it as u64) + 1);
        let v = VectorSuccess {
            input: hex_string(&input_bytes),
            expected: hex_string(&expected_bytes),
            name: Some(nm),
        };
        proof {
            assert(g1_add_witness(v, comps_view(&a), comps_view(&b), it + 1));
        }
        vectors.push(v);
    }
    Ok(vectors)
}

/// Generates `n` independent G2 addition vectors.
pub fn gen_g2_add_vectors(rng: &mut StdRng, n: usize) -> (r: Result<Vec<VectorSuccess>, GenError>)
    ensures
        n == 0 ==> r is Ok,
        r matches Ok(vs) ==> vs@.len() == n && forall|i: int|
            0 <= i < n ==> is_g2_add_vector(#[trigger] vs@[i], i + 1),
{
    let mut vectors: Vec<VectorSuccess> = Vec::new();
    for it in 0..n
        invariant
            vectors@.len() == it,
            forall|k: int| 0 <= k < it ==> is_g2_add_vector(#[trigger] vectors@[k], k + 1),
    {
        let a = match g2_rand(rng) {
            Some(c) => c,
            None => { return Err(GenError::Arithmetic) },
        };
        let b = match g2_rand(rng) {
            Some(c) => c,
            None => { return Err(GenError::Arithmetic) },
        };
        let sum = match g2_add_points(&a, &b) {
            Ok(c) => c,
            Err(e) => { return Err(e) },
        };
        let mut input_bytes = encode_g2(&a);
        let b_bytes = encode_g2(&b);
        extend_bytes(&mut input_bytes, &b_bytes);
        let expected_bytes = encode_g2(&sum);
        let nm = numbered_name("g2_add", (it as u64) + 1);
        let v = VectorSuccess {
            input: hex_string(&input_bytes),
            expected: hex_string(&expected_bytes),
            name: Some(nm),
        };
        proof {
            assert(g2_add_witness(v, comps_view(&a), comps_view(&b), it + 1));
        }
        vectors.push(v);
    }
    Ok(vectors)
}

/// Generates `n` independent G1 scalar-multiplication vectors.
pub fn gen_g1_mul_vectors(rng: &mut StdRng, n: usize) -> (r: Result<Vec<VectorSuccess>, GenError>)
    ensures
        n == 0 ==> r is Ok,
        r matches Ok(vs) ==> vs@.len() == n && forall|i: int|
            0 <= i < n ==> is_g1_mul_vector(#[trigger] vs@[i], i + 1),
{
    let mut vectors: Vec<VectorSuccess> = Vec::new();
    for it in 0..n
        invariant
            vectors@.len() == it,
            forall|k: int| 0 <= k < it ==> is_g1_mul_vector(#[trigger] vectors@[k], k + 1),
    {
        let a = match g1_rand(rng) {
            Some(c) => c,
            None => { return Err(GenError::Arithmetic) },
        };
        let e = match fr_rand(rng) {
            Some(c) => c,
            None => { return Err(GenError::Arithmetic) },
        };
        let product = match g1_scale_point(&a, &e) {
            Ok(c) => c,
            Err(err) => { return Err(err) },
        };
        let mut input_bytes = encode_g1(&a);
        let e_bytes = encode_fr(&e);
        extend_bytes(&mut input_bytes, &e_bytes);
        let expected_bytes = encode_g1(&product);
        let nm = numbered_name("g1_mul", (it as u64) + 1);
        let v = VectorSuccess {
            input: hex_string(&input_bytes),
            expected: hex_string(&expected_bytes),
            name: Some(nm),
        };
        proof {
            assert(g1_mul_witness(v, comps_view(&a), e@, it + 1));
        }
        vectors.push(v);
    }
    Ok(vectors)
}

/// Generates `n` independent G2 scalar-multiplication vectors.
pub fn gen_g2_mul_vectors(rng: &mut StdRng, n: usize) -> (r: Result<Vec<VectorSuccess>, GenError>)
    ensures
        n == 0 ==> r is Ok,
        r matches Ok(vs) ==> vs@.len() == n && forall|i: int|
            0 <= i < n ==> is_g2_mul_vector(#[trigger] vs@[i], i + 1),
{
    let mut vectors: Vec<VectorSuccess> = Vec::new();
    for it in 0..n
        invariant
            vectors@.len() == it,
            forall|k: int| 0 <= k < it ==> is_g2_mul_vector(#[trigger] vectors@[k], k + 1),
    {
        let a = match g2_rand(rng) {
            Some(c) => c,
            None => { return Err(GenError::Arithmetic) },
        };
        let e = match fr_rand(rng) {
            Some(c) => c,
            None => { return Err(GenError::Arithmetic) },
        };
        let product = match g2_scale_point(&a, &e) {
            Ok(c) => c,
            Err(err) => { return Err(err) },
        };
        let mut input_bytes = encode_g2(&a);
        let e_bytes = encode_fr(&e);
        extend_bytes(&mut input_bytes, &e_bytes);
        let expected_bytes = encode_g2(&product);
        let nm = numbered_name("g2_mul", (it as u64) + 1);
        let v = VectorSuccess {
            input: hex_string(&input_bytes),
            expected: hex_string(&expected_bytes),
            name: Some(nm),
        };
        proof {
            assert(g2_mul_witness(v, comps_view(&a), e@, it + 1));
        }
        vectors.push(v);
    }
    Ok(vectors)
}

/// The weighted sum of (point, scalar) pairs, accumulated left to right
/// from the identity.
pub open spec fn g1_msm_value(ps: Seq<Seq<Seq<u8>>>, es: Seq<Seq<u8>>) -> Seq<Seq<u8>>
    decreases ps.len(),
{
    if ps.len() == 0 {
        zero_comps(2, 96)
    } else {
        g1_combine(g1_msm_value(ps.drop_last(), es.drop_last()), g1_scale(ps.last(), es.last()))
    }
}

/// The concatenated encodings of (point, scalar) pairs, in order.
pub open spec fn g1_msm_input(ps: Seq<Seq<Seq<u8>>>, es: Seq<Seq<u8>>) -> Seq<u8>
    decreases ps.len(),
{
    if ps.len() == 0 {
        Seq::empty()
    } else {
        g1_msm_input(ps.drop_last(), es.drop_last()) + point_bytes(profile_spec(), ps.last(), 1)
            + scalar_word(profile_spec(), es.last())
    }
}

pub open spec fn g2_msm_value(ps: Seq<Seq<Seq<u8>>>, es: Seq<Seq<u8>>) -> Seq<Seq<u8>>
    decreases ps.len(),
{
    if ps.len() == 0 {
        zero_comps(2, 96)
    } else {
        g2_combine(g2_msm_value(ps.drop_last(), es.drop_last()), g2_scale(ps.last(), es.last()))
    }
}

pub open spec fn g2_msm_input(ps: Seq<Seq<Seq<u8>>>, es: Seq<Seq<u8>>) -> Seq<u8>
    decreases ps.len(),
{
    if ps.len() == 0 {
        Seq::empty()
    } else {
        g2_msm_input(ps.drop_last(), es.drop_last()) + point_bytes(profile_spec(), ps.last(), 1)
            + scalar_word(profile_spec(), es.last())
    }
}

/// A multi-scalar-multiplication vector of multiplicity `k`.
pub open spec fn g1_msm_witness(
    v: VectorSuccess,
    ps: Seq<Seq<Seq<u8>>>,
    es: Seq<Seq<u8>>,
    k: int,
    idx: int,
) -> bool {
    &&& ps.len() == k
    &&& es.len() == k
    &&& k >= 1
    &&& idx >= 1
    &&& (forall|j: int| 0 <= j < k ==> g1_wf(#[trigger] ps[j]))
    &&& (forall|j: int| 0 <= j < k ==> fr_wf(#[trigger] es[j]))
    &&& g1_wf(g1_msm_value(ps, es))
    &&& v.input@ == hex_of(g1_msm_input(ps, es))
    &&& v.expected@ == hex_of(point_bytes(profile_spec(), g1_msm_value(ps, es), 1))
    &&& v.name matches Some(nm) && nm@ == vector_name("g1_multiexp"@, idx)
}

pub open spec fn is_g1_msm_vector(v: VectorSuccess, k: int, idx: int) -> bool {
    exists|ps: Seq<Seq<Seq<u8>>>, es: Seq<Seq<u8>>| g1_msm_witness(v, ps, es, k, idx)
}

pub open spec fn g2_msm_witness(
    v: VectorSuccess,
    ps: Seq<Seq<Seq<u8>>>,
    es: Seq<Seq<u8>>,
    k: int,
    idx: int,
) -> bool {
    &&& ps.len() == k
    &&& es.len() == k
    &&& k >= 1
    &&& idx >= 1
    &&& (forall|j: int| 0 <= j < k ==> g2_wf(#[trigger] ps[j]))
    &&& (forall|j: int| 0 <= j < k ==> fr_wf(#[trigger] es[j]))
    &&& g2_wf(g2_msm_value(ps, es))
    &&& v.input@ == hex_of(g2_msm_input(ps, es))
    &&& v.expected@ == hex_of(point_bytes(profile_spec(), g2_msm_value(ps, es), 1))
    &&& v.name matches Some(nm) && nm@ == vector_name("g2_multiexp"@, idx)
}

pub open spec fn is_g2_msm_vector(v: VectorSuccess, k: int, idx: int) -> bool {
    exists|ps: Seq<Seq<Seq<u8>>>, es: Seq<Seq<u8>>| g2_msm_witness(v, ps, es, k, idx)
}

/// Generates multi-scalar-multiplication vectors, one for each
/// multiplicity from 1 to `n`.
pub fn gen_g1_multiexp_vectors(rng: &mut StdRng, n: usize) -> (r: Result<
    Vec<VectorSuccess>,
    GenError,
>)
    requires
        n < usize::MAX,
    ensures
        n == 0 ==> r is Ok,
        r matches Ok(vs) ==> vs@.len() == n && forall|i: int|
            0 <= i < n ==> is_g1_msm_vector(#[trigger] vs@[i], i + 1, i + 2),
{
    let mut vectors: Vec<VectorSuccess> = Vec::new();
    for it in 0..n
        invariant
            n < usize::MAX,
            vectors@.len() == it,
            forall|t: int| 0 <= t < it ==> is_g1_msm_vector(#[trigger] vectors@[t], t + 1, t + 2),
    {
        let k = it + 1;
        let mut input_bytes: Vec<u8> = Vec::new();
        let mut acc = zero_comps_vec(2, 96);
        let ghost mut gps: Seq<Seq<Seq<u8>>> = Seq::empty();
        let ghost mut ges: Seq<Seq<u8>> = Seq::empty();
        for j in 0..k
            invariant
                it < n,
                gps.len() == j,
                ges.len() == j,
                forall|t: int| 0 <= t < j ==> g1_wf(#[trigger] gps[t]),
                forall|t: int| 0 <= t < j ==> fr_wf(#[trigger] ges[t]),
                g1_wf(comps_view(&acc)),
                comps_view(&acc) == g1_msm_value(gps, ges),
                input_bytes@ == g1_msm_input(gps, ges),
        {
            let a = match g1_rand(rng) {
                Some(c) => c,
                None => { return Err(GenError::Arithmetic) },
            };
            let e = match fr_rand(rng) {
                Some(c) => c,
                None => { return Err(GenError::Arithmetic) },
            };
            let a_bytes = encode_g1(&a);
            extend_bytes(&mut input_bytes, &a_bytes);
            let e_bytes = encode_fr(&e);
            extend_bytes(&mut input_bytes, &e_bytes);
            let product = match g1_scale_point(&a, &e) {
                Ok(c) => c,
                Err(err) => { return Err(err) },
            };
            let next = match g1_add_points(&acc, &product) {
                Ok(c) => c,
                Err(err) => { return Err(err) },
            };
            acc = next;
            proof {
                let ps2 = gps.push(comps_view(&a));
                let es2 = ges.push(e@);
                assert(ps2.drop_last() =~= gps);
                assert(es2.drop_last() =~= ges);
                assert(ps2.last() == comps_view(&a));
                assert(es2.last() == e@);
                gps = ps2;
                ges = es2;
            }
        }
        let expected_bytes = encode_g1(&acc);
        let nm = numbered_name("g1_multiexp", (it as u64) + 2);
        let v = VectorSuccess {
            input: hex_string(&input_bytes),
            expected: hex_string(&expected_bytes),
            name: Some(nm),
        };
        proof {
            assert(g1_msm_witness(v, gps, ges, it + 1, it + 2));
        }
        vectors.push(v);
    }
    Ok(vectors)
}

/// Generates G2 multi-scalar-multiplication vectors, one for each
/// multiplicity from 1 to `n`.
pub fn gen_g2_multiexp_vectors(rng: &mut StdRng, n: usize) -> (r: Result<
    Vec<VectorSuccess>,
    GenError,
>)
    requires
        n < usize::MAX,
    ensures
        n == 0 ==> r is Ok,
        r matches Ok(vs) ==> vs@.len() == n && forall|i: int|
            0 <= i < n ==> is_g2_msm_vector(#[trigger] vs@[i], i + 1, i + 1),
{
    let mut vectors: Vec<VectorSuccess> = Vec::new();
    for it in 0..n
        invariant
            n < usize::MAX,
            vectors@.len() == it,
            forall|t: int| 0 <= t < it ==> is_g2_msm_vector(#[trigger] vectors@[t], t + 1, t + 1),
    {
        let k = it + 1;
        let mut input_bytes: Vec<u8> = Vec::new();
        let mut acc = zero_comps_vec(2, 96);
        let ghost mut gps: Seq<Seq<Seq<u8>>> = Seq::empty();
        let ghost mut ges: Seq<Seq<u8>> = Seq::empty();
        for j in 0..k
            invariant
                it < n,
                gps.len() == j,
                ges.len() == j,
                forall|t: int| 0 <= t < j ==> g2_wf(#[trigger] gps[t]),
                forall|t: int| 0 <= t < j ==> fr_wf(#[trigger] ges[t]),
                g2_wf(comps_view(&acc)),
                comps_view(&acc) == g2_msm_value(gps, ges),
                input_bytes@ == g2_msm_input(gps, ges),
        {
            let a = match g2_rand(rng) {
                Some(c) => c,
                None => { return Err(GenError::Arithmetic) },
            };
            let e = match fr_rand(rng) {
                Some(c) => c,
                None => { return Err(GenError::Arithmetic) },
            };
            let a_bytes = encode_g2(&a);
            extend_bytes(&mut input_bytes, &a_bytes);
            let e_bytes = encode_fr(&e);
            extend_bytes(&mut input_bytes, &e_bytes);
            let product = match g2_scale_point(&a, &e) {
                Ok(c) => c,
                Err(err) => { return Err(err) },
            };
            let next = match g2_add_points(&acc, &product) {
                Ok(c) => c,
                Err(err) => { return Err(err) },
            };
            acc = next;
            proof {
                let ps2 = gps.push(comps_view(&a));
                let es2 = ges.push(e@);
                assert(ps2.drop_last() =~= gps);
                assert(es2.drop_last() =~= ges);
                assert(ps2.last() == comps_view(&a));
                assert(es2.last() == e@);
                gps = ps2;
                ges = es2;
            }
        }
        let expected_bytes = encode_g2(&acc);
        let nm = numbered_name("g2_multiexp", (it as u64) + 1);
        let v = VectorSuccess {
            input: hex_string(&input_bytes),
            expected: hex_string(&expected_bytes),
            name: Some(nm),
        };
        proof {
            assert(g2_msm_witness(v, gps, ges, it + 1, it + 1));
        }
        vectors.push(v);
    }
    Ok(vectors)
}

/// The scalar accumulator of the bilinearity construction: the sum of the
/// products of the scalar pairs, folded left to right from zero.
pub open spec fn pairing_acc(e1s: Seq<Seq<u8>>, e2s: Seq<Seq<u8>>) -> Seq<u8>
    decreases e1s.len(),
{
    if e1s.len() == 0 {
        zero_bytes(48)
    } else {
        fr_add_of(pairing_acc(e1s.drop_last(), e2s.drop_last()), fr_mul_of(e1s.last(), e2s.last()))
    }
}

/// The concatenated encodings of the pairs `(e1_j * g, e2_j * h)`.
pub open spec fn pairing_pairs_bytes(
    gb: Seq<Seq<u8>>,
    hb: Seq<Seq<u8>>,
    e1s: Seq<Seq<u8>>,
    e2s: Seq<Seq<u8>>,
) -> Seq<u8>
    decreases e1s.len(),
{
    if e1s.len() == 0 {
        Seq::empty()
    } else {
        pairing_pairs_bytes(gb, hb, e1s.drop_last(), e2s.drop_last()) + point_bytes(
            profile_spec(),
            g1_scale(gb, e1s.last()),
            1,
        ) + point_bytes(profile_spec(), g2_scale(hb, e2s.last()), 1)
    }
}

/// The fixed degenerate pair (infinity, h): always true, whatever the
/// second operand.
pub open spec fn pairing_inf_g1_witness(v: VectorSuccess, hb: Seq<Seq<u8>>) -> bool {
    &&& g2_wf(hb)
    &&& v.input@ == hex_of(zero_bytes(192) + point_bytes(profile_spec(), hb, 1))
    &&& v.expected@ == hex_of(true_sentinel())
    &&& v.name matches Some(nm) && nm@ == vector_name("g2_pairing"@, 1)
}

pub open spec fn is_pairing_inf_g1_vector(v: VectorSuccess) -> bool {
    exists|hb: Seq<Seq<u8>>| pairing_inf_g1_witness(v, hb)
}

/// The fixed degenerate pair (g, infinity).
pub open spec fn pairing_inf_g2_witness(v: VectorSuccess, gb: Seq<Seq<u8>>) -> bool {
    &&& g1_wf(gb)
    &&& v.input@ == hex_of(point_bytes(profile_spec(), gb, 1) + zero_bytes(192))
    &&& v.expected@ == hex_of(true_sentinel())
    &&& v.name matches Some(nm) && nm@ == vector_name("g2_pairing"@, 2)
}

pub open spec fn is_pairing_inf_g2_vector(v: VectorSuccess) -> bool {
    exists|gb: Seq<Seq<u8>>| pairing_inf_g2_witness(v, gb)
}

/// A positive multi-pairing vector of `k` pairs built by bilinearity:
/// `k - 1` pairs `(e1_j * g, e2_j * h)` followed by the closing pair
/// `(-(sum of e1_j * e2_j) * g, h)`, so that the pairing product is the
/// multiplicative identity by construction.
pub open spec fn pairing_true_witness(
    v: VectorSuccess,
    gb: Seq<Seq<u8>>,
    hb: Seq<Seq<u8>>,
    e1s: Seq<Seq<u8>>,
    e2s: Seq<Seq<u8>>,
    k: int,
) -> bool {
    &&& g1_wf(gb)
    &&& g2_wf(hb)
    &&& k >= 2
    &&& e1s.len() == k - 1
    &&& e2s.len() == k - 1
    &&& (forall|j: int| 0 <= j < k - 1 ==> fr_wf(#[trigger] e1s[j]))
    &&& (forall|j: int| 0 <= j < k - 1 ==> fr_wf(#[trigger] e2s[j]))
    &&& (forall|j: int| 0 <= j < k - 1 ==> g1_wf(#[trigger] g1_scale(gb, e1s[j])))
    &&& (forall|j: int| 0 <= j < k - 1 ==> g2_wf(#[trigger] g2_scale(hb, e2s[j])))
    &&& g1_wf(g1_scale(gb, fr_neg_of(pairing_acc(e1s, e2s))))
    &&& v.input@ == hex_of(
        pairing_pairs_bytes(gb, hb, e1s, e2s) + point_bytes(
            profile_spec(),
            g1_scale(gb, fr_neg_of(pairing_acc(e1s, e2s))),
            1,
        ) + point_bytes(profile_spec(), hb, 1),
    )
    &&& v.expected@ == hex_of(true_sentinel())
    &&& v.name matches Some(nm) && nm@ == vector_name("g2_pairing"@, k)
}

pub open spec fn is_pairing_true_vector(v: VectorSuccess, k: int) -> bool {
    exists|gb: Seq<Seq<u8>>, hb: Seq<Seq<u8>>, e1s: Seq<Seq<u8>>, e2s: Seq<Seq<u8>>|
        pairing_true_witness(v, gb, hb, e1s, e2s, k)
}

/// A negative multi-pairing vector: `k` fully independent random pairs
/// with no algebraic relation; the expected output is the all-zero false
/// sentinel.
pub open spec fn pairing_false_witness(
    v: VectorSuccess,
    gb: Seq<Seq<u8>>,
    hb: Seq<Seq<u8>>,
    e1s: Seq<Seq<u8>>,
    e2s: Seq<Seq<u8>>,
    k: int,
    nidx: int,
) -> bool {
    &&& g1_wf(gb)
    &&& g2_wf(hb)
    &&& k >= 1
    &&& nidx >= 1
    &&& e1s.len() == k
    &&& e2s.len() == k
    &&& (forall|j: int| 0 <= j < k ==> fr_wf(#[trigger] e1s[j]))
    &&& (forall|j: int| 0 <= j < k ==> fr_wf(#[trigger] e2s[j]))
    &&& (forall|j: int| 0 <= j < k ==> g1_wf(#[trigger] g1_scale(gb, e1s[j])))
    &&& (forall|j: int| 0 <= j < k ==> g2_wf(#[trigger] g2_scale(hb, e2s[j])))
    &&& v.input@ == hex_of(pairing_pairs_bytes(gb, hb, e1s, e2s))
    &&& v.expected@ == hex_of(false_sentinel())
    &&& v.name matches Some(nm) && nm@ == vector_name("g2_pairing_0"@, nidx)
}

pub open spec fn is_pairing_false_vector(v: VectorSuccess, k: int, nidx: int) -> bool {
    exists|gb: Seq<Seq<u8>>, hb: Seq<Seq<u8>>, e1s: Seq<Seq<u8>>, e2s: Seq<Seq<u8>>|
        pairing_false_witness(v, gb, hb, e1s, e2s, k, nidx)
}

/// Generates the multi-pairing vectors: the two fixed degenerate
/// single-pair cases with one operand at infinity (always true), then for
/// each pair count from 2 to `n + 1` one vector built by bilinearity to
/// evaluate to the multiplicative identity, then for each pair count from
/// 1 to `n` one vector of fully independent random pairs whose expected
/// output is the false sentinel.  The falseness of those last vectors is
/// statistical, not absolute: an accidental identity has cryptographically
/// negligible probability.
pub fn gen_pairing_vectors(rng: &mut StdRng, n: usize) -> (r: Result<Vec<VectorSuccess>, GenError>)
    requires
        n <= usize::MAX / 2 - 1,
    ensures
        r matches Ok(vs) ==> {
            &&& vs@.len() == 2 + 2 * n
            &&& is_pairing_inf_g1_vector(vs@[0])
            &&& is_pairing_inf_g2_vector(vs@[1])
            &&& (forall|t: int| 2 <= t < 2 + n ==> is_pairing_true_vector(#[trigger] vs@[t], t))
            &&& (forall|t: int|
                2 + n <= t < 2 + 2 * n ==> is_pairing_false_vector(
                    #[trigger] vs@[t],
                    t - n - 1,
                    t,
                ))
        },
{
    let gb = match g1_generator() {
        Some(c) => c,
        None => { return Err(GenError::Arithmetic) },
    };
    let hb = match g2_generator() {
        Some(c) => c,
        None => { return Err(GenError::Arithmetic) },
    };
    let mut vectors: Vec<VectorSuccess> = Vec::new();

    let mut in1 = make_zero_bytes(192);
    let h_bytes = encode_g2(&hb);
    extend_bytes(&mut in1, &h_bytes);
    let v1 = VectorSuccess {
        input: hex_string(&in1),
        expected: hex_string(&true_sentinel_bytes()),
        name: Some(numbered_name("g2_pairing", 1)),
    };
    proof {
        assert(pairing_inf_g1_witness(v1, comps_view(&hb)));
    }
    vectors.push(v1);

    let mut in2 = encode_g1(&gb);
    let z2 = make_zero_bytes(192);
    extend_bytes(&mut in2, &z2);
    let v2 = VectorSuccess {
        input: hex_string(&in2),
        expected: hex_string(&true_sentinel_bytes()),
        name: Some(numbered_name("g2_pairing", 2)),
    };
    proof {
        assert(pairing_inf_g2_witness(v2, comps_view(&gb)));
    }
    vectors.push(v2);

    for it in 0..n
        invariant
            n <= usize::MAX / 2 - 1,
            g1_wf(comps_view(&gb)),
            g2_wf(comps_view(&hb)),
            vectors@.len() == 2 + it,
            is_pairing_inf_g1_vector(vectors@[0]),
            is_pairing_inf_g2_vector(vectors@[1]),
            forall|t: int| 2 <= t < 2 + it ==> is_pairing_true_vector(#[trigger] vectors@[t], t),
    {
        let pairs = it + 1;
        let mut input_bytes: Vec<u8> = Vec::new();
        let mut acc = make_zero_bytes(48);
        let ghost mut ge1: Seq<Seq<u8>> = Seq::empty();
        let ghost mut ge2: Seq<Seq<u8>> = Seq::empty();
        for j in 0..pairs
            invariant
                g1_wf(comps_view(&gb)),
                g2_wf(comps_view(&hb)),
                ge1.len() == j,
                ge2.len() == j,
                forall|t: int| 0 <= t < j ==> fr_wf(#[trigger] ge1[t]),
                forall|t: int| 0 <= t < j ==> fr_wf(#[trigger] ge2[t]),
                forall|t: int|
                    0 <= t < j ==> g1_wf(#[trigger] g1_scale(comps_view(&gb), ge1[t])),
                forall|t: int|
                    0 <= t < j ==> g2_wf(#[trigger] g2_scale(comps_view(&hb), ge2[t])),
                acc@ == pairing_acc(ge1, ge2),
                acc@.len() == 48,
                input_bytes@ == pairing_pairs_bytes(comps_view(&gb), comps_view(&hb), ge1, ge2),
        {
            let e1 = match fr_rand(rng) {
                Some(c) => c,
                None => { return Err(GenError::Arithmetic) },
            };
            let e2 = match fr_rand(rng) {
                Some(c) => c,
                None => { return Err(GenError::Arithmetic) },
            };
            let a1 = match g1_scale_point(&gb, &e1) {
                Ok(c) => c,
                Err(err) => { return Err(err) },
            };
            let a2 = match g2_scale_point(&hb, &e2) {
                Ok(c) => c,
                Err(err) => { return Err(err) },
            };
            let a1_bytes = encode_g1(&a1);
            extend_bytes(&mut input_bytes, &a1_bytes);
            let a2_bytes = encode_g2(&a2);
            extend_bytes(&mut input_bytes, &a2_bytes);
            let prod = match fr_mul_bytes(&e1, &e2) {
                Some(c) => c,
                None => { return Err(GenError::Arithmetic) },
            };
            let next = match fr_add_bytes(&acc, &prod) {
                Some(c) => c,
                None => { return Err(GenError::Arithmetic) },
            };
            acc = next;
            proof {
                assert(g1_wf(g1_scale(comps_view(&gb), e1@)));
                assert(g2_wf(g2_scale(comps_view(&hb), e2@)));
                let f1 = ge1.push(e1@);
                let f2 = ge2.push(e2@);
                assert(f1.drop_last() =~= ge1);
                assert(f2.drop_last() =~= ge2);
                assert(f1.last() == e1@);
                assert(f2.last() == e2@);
                ge1 = f1;
                ge2 = f2;
            }
        }
        let neg = match fr_neg_bytes(&acc) {
            Some(c) => c,
            None => { return Err(GenError::Arithmetic) },
        };
        let last1 = match g1_scale_point(&gb, &neg) {
            Ok(c) => c,
            Err(err) => { return Err(err) },
        };
        let last1_bytes = encode_g1(&last1);
        extend_bytes(&mut input_bytes, &last1_bytes);
        let h_enc = encode_g2(&hb);
        extend_bytes(&mut input_bytes, &h_enc);
        let v = VectorSuccess {
            input: hex_string(&input_bytes),
            expected: hex_string(&true_sentinel_bytes()),
            name: Some(numbered_name("g2_pairing", (it as u64) + 2)),
        };
        proof {
            assert(pairing_true_witness(v, comps_view(&gb), comps_view(&hb), ge1, ge2, it + 2));
        }
        vectors.push(v);
    }

    for it in 0..n
        invariant
            n <= usize::MAX / 2 - 1,
            g1_wf(comps_view(&gb)),
            g2_wf(comps_view(&hb)),
            vectors@.len() == 2 + n + it,
            is_pairing_inf_g1_vector(vectors@[0]),
            is_pairing_inf_g2_vector(vectors@[1]),
            forall|t: int| 2 <= t < 2 + n ==> is_pairing_true_vector(#[trigger] vectors@[t], t),
            forall|t: int|
                2 + n <= t < 2 + n + it ==> is_pairing_false_vector(
                    #[trigger] vectors@[t],
                    t - n - 1,
                    t,
                ),
    {
        let pairs = it + 1;
        let mut input_bytes: Vec<u8> = Vec::new();
        let ghost mut ge1: Seq<Seq<u8>> = Seq::empty();
        let ghost mut ge2: Seq<Seq<u8>> = Seq::empty();
        for j in 0..pairs
            invariant
                g1_wf(comps_view(&gb)),
                g2_wf(comps_view(&hb)),
                ge1.len() == j,
                ge2.len() == j,
                forall|t: int| 0 <= t < j ==> fr_wf(#[trigger] ge1[t]),
                forall|t: int| 0 <= t < j ==> fr_wf(#[trigger] ge2[t]),
                forall|t: int|
                    0 <= t < j ==> g1_wf(#[trigger] g1_scale(comps_view(&gb), ge1[t])),
                forall|t: int|
                    0 <= t < j ==> g2_wf(#[trigger] g2_scale(comps_view(&hb), ge2[t])),
                input_bytes@ == pairing_pairs_bytes(comps_view(&gb), comps_view(&hb), ge1, ge2),
        {
            let e1 = match fr_rand(rng) {
                Some(c) => c,
                None => { return Err(GenError::Arithmetic) },
            };
            let e2 = match fr_rand(rng) {
                Some(c) => c,
                None => { return Err(GenError::Arithmetic) },
            };
            let a1 = match g1_scale_point(&gb, &e1) {
                Ok(c) => c,
                Err(err) => { return Err(err) },
            };
            let a2 = match g2_scale_point(&hb, &e2) {
                Ok(c) => c,
                Err(err) => { return Err(err) },
            };
            let a1_bytes = encode_g1(&a1);
            extend_bytes(&mut input_bytes, &a1_bytes);
            let a2_bytes = encode_g2(&a2);
            extend_bytes(&mut input_bytes, &a2_bytes);
            proof {
                assert(g1_wf(g1_scale(comps_view(&gb), e1@)));
                assert(g2_wf(g2_scale(comps_view(&hb), e2@)));
                let f1 = ge1.push(e1@);
                let f2 = ge2.push(e2@);
                assert(f1.drop_last() =~= ge1);
                assert(f2.drop_last() =~= ge2);
                assert(f1.last() == e1@);
                assert(f2.last() == e2@);
                ge1 = f1;
                ge2 = f2;
            }
        }
        let nidx = (n as u64) + (it as u64) + 2;
        let v = VectorSuccess {
            input: hex_string(&input_bytes),
            expected: hex_string(&false_sentinel_bytes()),
            name: Some(numbered_name("g2_pairing_0", nidx)),
        };
        proof {
            assert(pairing_false_witness(
                v,
                comps_view(&gb),
                comps_view(&hb),
                ge1,
                ge2,
                it + 1,
                2 + n + it,
            ));
        }
        vectors.push(v);
    }
    Ok(vectors)
}

/// Synthesizes G1 coordinates that fail the curve equation: both
/// coordinates are sampled independently at random (not derived from the
/// equation) and the external on-curve predicate is consulted; a
/// candidate that happens to lie on the curve is rejected and resampled.
/// The search is bounded by `max_tries` and fails fast on exhaustion.
pub fn rand_g1_point_not_on_curve(rng: &mut StdRng, max_tries: usize) -> (r: Result<
    Vec<Vec<u8>>,
    GenError,
>)
    ensures
        r matches Ok(c) ==> g1_wf(comps_view(&c)) && !g1_on_curve_of(comps_view(&c)),
{
    for _t in 0..max_tries {
        let x = match fq_rand(rng) {
            Some(v) => v,
            None => { return Err(GenError::Arithmetic) },
        };
        let y = match fq_rand(rng) {
            Some(v) => v,
            None => { return Err(GenError::Arithmetic) },
        };
        let mut c: Vec<Vec<u8>> = Vec::new();
        c.push(x);
        c.push(y);
        proof {
            assert(forall|i: int| 0 <= i < 2 ==> #[trigger] comps_view(&c)[i] == c@[i]@);
        }
        match g1_on_curve_bytes(&c) {
            Some(on) => {
                if !on {
                    return Ok(c);
                }
            },
            None => { return Err(GenError::Arithmetic) },
        }
    }
    Err(GenError::SearchExhausted)
}

/// The G2 counterpart of `rand_g1_point_not_on_curve`.
pub fn rand_g2_point_not_on_curve(rng: &mut StdRng, max_tries: usize) -> (r: Result<
    Vec<Vec<u8>>,
    GenError,
>)
    ensures
        r matches Ok(c) ==> g2_wf(comps_view(&c)) && !g2_on_curve_of(comps_view(&c)),
{
    for _t in 0..max_tries {
        let x = match fq_rand(rng) {
            Some(v) => v,
            None => { return Err(GenError::Arithmetic) },
        };
        let y = match fq_rand(rng) {
            Some(v) => v,
            None => { return Err(GenError::Arithmetic) },
        };
        let mut c: Vec<Vec<u8>> = Vec::new();
        c.push(x);
        c.push(y);
        proof {
            assert(forall|i: int| 0 <= i < 2 ==> #[trigger] comps_view(&c)[i] == c@[i]@);
        }
        match g2_on_curve_bytes(&c) {
            Some(on) => {
                if !on {
                    return Ok(c);
                }
            },
            None => { return Err(GenError::Arithmetic) },
        }
    }
    Err(GenError::SearchExhausted)
}

/// Synthesizes a G1 point that lies on the curve but outside the
/// prime-order subgroup: a random x-coordinate is sampled, the curve
/// equation is solved for y by an external square root, and the first
/// candidate whose external subgroup predicate is false is returned.  A
/// candidate that fails the on-curve check — which the construction makes
/// impossible for a correct external library — aborts the run, and the
/// rejection-sampling loop is bounded by `max_tries`.
pub fn rand_g1_point_not_on_correct_subgroup(rng: &mut StdRng, max_tries: usize) -> (r: Result<
    Vec<Vec<u8>>,
    GenError,
>)
    ensures
        r matches Ok(c) ==> g1_wf(comps_view(&c)) && g1_on_curve_of(comps_view(&c))
            && !g1_in_subgroup_of(comps_view(&c)),
{
    let b = match g1_coeff_b_bytes() {
        Some(v) => v,
        None => { return Err(GenError::Arithmetic) },
    };
    for _t in 0..max_tries
        invariant
            fq_wf(b@),
    {
        let x = match fq_rand(rng) {
            Some(v) => v,
            None => { return Err(GenError::Arithmetic) },
        };
        let x2 = match fq_mul_bytes(&x, &x) {
            Some(v) => v,
            None => { return Err(GenError::Arithmetic) },
        };
        let x3 = match fq_mul_bytes(&x2, &x) {
            Some(v) => v,
            None => { return Err(GenError::Arithmetic) },
        };
        let y2 = match fq_add_bytes(&x3, &b) {
            Some(v) => v,
            None => { return Err(GenError::Arithmetic) },
        };
        if let Some(y) = fq_sqrt_bytes(&y2) {
            let mut c: Vec<Vec<u8>> = Vec::new();
            c.push(x);
            c.push(y);
            proof {
                assert(forall|i: int| 0 <= i < 2 ==> #[trigger] comps_view(&c)[i] == c@[i]@);
            }
            match g1_on_curve_bytes(&c) {
                Some(on) => {
                    if !on {
                        return Err(GenError::CheckFailed);
                    }
                },
                None => { return Err(GenError::Arithmetic) },
            }
            match g1_in_subgroup_bytes(&c) {
                Some(sub) => {
                    if !sub {
                        return Ok(c);
                    }
                },
                None => { return Err(GenError::Arithmetic) },
            }
        }
    }
    Err(GenError::SearchExhausted)
}

/// The G2 counterpart of `rand_g1_point_not_on_correct_subgroup`.
pub fn rand_g2_point_not_on_correct_subgroup(rng: &mut StdRng, max_tries: usize) -> (r: Result<
    Vec<Vec<u8>>,
    GenError,
>)
    ensures
        r matches Ok(c) ==> g2_wf(comps_view(&c)) && g2_on_curve_of(comps_view(&c))
            && !g2_in_subgroup_of(comps_view(&c)),
{
    let b = match g2_coeff_b_bytes() {
        Some(v) => v,
        None => { return Err(GenError::Arithmetic) },
    };
    for _t in 0..max_tries
        invariant
            fq_wf(b@),
    {
        let x = match fq_rand(rng) {
            Some(v) => v,
            None => { return Err(GenError::Arithmetic) },
        };
        let x2 = match fq_mul_bytes(&x, &x) {
            Some(v) => v,
            None => { return Err(GenError::Arithmetic) },
        };
        let x3 = match fq_mul_bytes(&x2, &x) {
            Some(v) => v,
            None => { return Err(GenError::Arithmetic) },
        };
        let y2 = match fq_add_bytes(&x3, &b) {
            Some(v) => v,
            None => { return Err(GenError::Arithmetic) },
        };
        if let Some(y) = fq_sqrt_bytes(&y2) {
            let mut c: Vec<Vec<u8>> = Vec::new();
            c.push(x);
            c.push(y);
            proof {
                assert(forall|i: int| 0 <= i < 2 ==> #[trigger] comps_view(&c)[i] == c@[i]@);
            }
            match g2_on_curve_bytes(&c) {
                Some(on) => {
                    if !on {
                        return Err(GenError::CheckFailed);
                    }
                },
                None => { return Err(GenError::Arithmetic) },
            }
            match g2_in_subgroup_bytes(&c) {
                Some(sub) => {
                    if !sub {
                        return Ok(c);
                    }
                },
                None => { return Err(GenError::Arithmetic) },
            }
        }
    }
    Err(GenError::SearchExhausted)
}

/// The three invalid-length vectors for an operation with the given
/// required input length: empty, one byte short, one byte long.
pub fn gen_fail_vectors(input_len: usize) -> (r: Vec<VectorFail>)
    requires
        1 <= input_len < usize::MAX,
    ensures
        invalid_length_triple(r@, input_len as int),
{
    invalid_length_vectors(input_len)
}

/// The "field element at least the modulus" vector for the G1 addition
/// input shape: one well-formed random operand, then the oversized
/// element in the second operand's x-slot, zeros in its y-slot.
pub open spec fn g1_add_large_fe_witness(v: VectorFail, a: Seq<Seq<u8>>) -> bool {
    &&& g1_valid(a)
    &&& v.input@ == hex_of(point_bytes(profile_spec(), a, 1) + oversized_fe() + zero_bytes(96))
    &&& v.expected_error@ == "must be less than modulus"@
    &&& v.name@ == "large_field_element"@
}

pub open spec fn is_g1_add_large_fe_vector(v: VectorFail) -> bool {
    exists|a: Seq<Seq<u8>>| g1_add_large_fe_witness(v, a)
}

/// The "point not on curve" vector for the G1 addition input shape: a
/// well-formed random operand followed by coordinates confirmed to fail
/// the curve equation.
pub open spec fn g1_add_not_on_curve_witness(v: VectorFail, a: Seq<Seq<u8>>, c: Seq<Seq<u8>>) -> bool {
    &&& g1_valid(a)
    &&& g1_wf(c)
    &&& !g1_on_curve_of(c)
    &&& v.input@ == hex_of(point_bytes(profile_spec(), a, 1) + point_bytes(profile_spec(), c, 1))
    &&& v.expected_error@ == "point is not on curve"@
    &&& v.name@ == "point_not_on_curve"@
}

pub open spec fn is_g1_add_not_on_curve_vector(v: VectorFail) -> bool {
    exists|a: Seq<Seq<u8>>, c: Seq<Seq<u8>>| g1_add_not_on_curve_witness(v, a, c)
}

/// Generates the malformed-input vectors for G1 addition: the three
/// invalid lengths, an x-coordinate at least the modulus, and an operand
/// off the curve.
pub fn gen_fail_g1_add_vectors(rng: &mut StdRng, max_tries: usize) -> (r: Result<
    Vec<VectorFail>,
    GenError,
>)
    ensures
        r matches Ok(vs) ==> {
            &&& vs@.len() == 5
            &&& invalid_length_triple(vs@.take(3), 384)
            &&& is_g1_add_large_fe_vector(vs@[3])
            &&& is_g1_add_not_on_curve_vector(vs@[4])
        },
{
    let mut vectors = gen_fail_vectors(384);
    let ghost triple = vectors@;

    let a = match g1_rand(rng) {
        Some(c) => c,
        None => { return Err(GenError::Arithmetic) },
    };
    let mut input_bytes = encode_g1(&a);
    let big = encoded_fe_larger_than_modulus();
    extend_bytes(&mut input_bytes, &big);
    let zeros = make_zero_bytes(96);
    extend_bytes(&mut input_bytes, &zeros);
    let v3 = VectorFail {
        input: hex_string(&input_bytes),
        expected_error: String::from_str("must be less than modulus"),
        name: String::from_str("large_field_element"),
    };
    proof {
        assert(g1_add_large_fe_witness(v3, comps_view(&a)));
    }
    vectors.push(v3);

    let a2 = match g1_rand(rng) {
        Some(c) => c,
        None => { return Err(GenError::Arithmetic) },
    };
    let c = match rand_g1_point_not_on_curve(rng, max_tries) {
        Ok(c) => c,
        Err(e) => { return Err(e) },
    };
    let mut input2 = encode_g1(&a2);
    let c_bytes = encode_g1(&c);
    extend_bytes(&mut input2, &c_bytes);
    let v4 = VectorFail {
        input: hex_string(&input2),
        expected_error: String::from_str("point is not on curve"),
        name: String::from_str("point_not_on_curve"),
    };
    proof {
        assert(g1_add_not_on_curve_witness(v4, comps_view(&a2), comps_view(&c)));
    }
    vectors.push(v4);
    proof {
        assert(vectors@.take(3) =~= triple);
    }
    Ok(vectors)
}

/// The G2 counterparts of the G1 addition failure shapes.
pub open spec fn g2_add_large_fe_witness(v: VectorFail, a: Seq<Seq<u8>>) -> bool {
    &&& g2_valid(a)
    &&& v.input@ == hex_of(point_bytes(profile_spec(), a, 1) + oversized_fe() + zero_bytes(96))
    &&& v.expected_error@ == "must be less than modulus"@
    &&& v.name@ == "large_field_element"@
}

pub open spec fn is_g2_add_large_fe_vector(v: VectorFail) -> bool {
    exists|a: Seq<Seq<u8>>| g2_add_large_fe_witness(v, a)
}

pub open spec fn g2_add_not_on_curve_witness(v: VectorFail, a: Seq<Seq<u8>>, c: Seq<Seq<u8>>) -> bool {
    &&& g2_valid(a)
    &&& g2_wf(c)
    &&& !g2_on_curve_of(c)
    &&& v.input@ == hex_of(point_bytes(profile_spec(), a, 1) + point_bytes(profile_spec(), c, 1))
    &&& v.expected_error@ == "point is not on curve"@
    &&& v.name@ == "point_not_on_curve"@
}

pub open spec fn is_g2_add_not_on_curve_vector(v: VectorFail) -> bool {
    exists|a: Seq<Seq<u8>>, c: Seq<Seq<u8>>| g2_add_not_on_curve_witness(v, a, c)
}

/// Generates the malformed-input vectors for G2 addition.
pub fn gen_fail_g2_add_vectors(rng: &mut StdRng, max_tries: usize) -> (r: Result<
    Vec<VectorFail>,
    GenError,
>)
    ensures
        r matches Ok(vs) ==> {
            &&& vs@.len() == 5
            &&& invalid_length_triple(vs@.take(3), 384)
            &&& is_g2_add_large_fe_vector(vs@[3])
            &&& is_g2_add_not_on_curve_vector(vs@[4])
        },
{
    let mut vectors = gen_fail_vectors(384);
    let ghost triple = vectors@;

    let a = match g2_rand(rng) {
        Some(c) => c,
        None => { return Err(GenError::Arithmetic) },
    };
    let mut input_bytes = encode_g2(&a);
    let big = encoded_fe_larger_than_modulus();
    extend_bytes(&mut input_bytes, &big);
    let zeros = make_zero_bytes(96);
    extend_bytes(&mut input_bytes, &zeros);
    let v3 = VectorFail {
        input: hex_string(&input_bytes),
        expected_error: String::from_str("must be less than modulus"),
        name: String::from_str("large_field_element"),
    };
    proof {
        assert(g2_add_large_fe_witness(v3, comps_view(&a)));
    }
    vectors.push(v3);

    let a2 = match g2_rand(rng) {
        Some(c) => c,
        None => { return Err(GenError::Arithmetic) },
    };
    let c = match rand_g2_point_not_on_curve(rng, max_tries) {
        Ok(c) => c,
        Err(e) => { return Err(e) },
    };
    let mut input2 = encode_g2(&a2);
    let c_bytes = encode_g2(&c);
    extend_bytes(&mut input2, &c_bytes);
    let v4 = VectorFail {
        input: hex_string(&input2),
        expected_error: String::from_str("point is not on curve"),
        name: String::from_str("point_not_on_curve"),
    };
    proof {
        assert(g2_add_not_on_curve_witness(v4, comps_view(&a2), comps_view(&c)));
    }
    vectors.push(v4);
    proof {
        assert(vectors@.take(3) =~= triple);
    }
    Ok(vectors)
}

/// The "field element at least the modulus" vector for the G1
/// scalar-multiplication input shape: the oversized element in the x-slot,
/// zeros for the y-coordinate and the scalar word.  The malformed input is
/// fixed, nothing about it is random.
pub open spec fn is_g1_mul_large_fe_vector(v: VectorFail) -> bool {
    &&& v.input@ == hex_of(oversized_fe() + zero_bytes(96) + zero_bytes(64))
    &&& v.expected_error@ == "must be less than modulus"@
    &&& v.name@ == "large_field_element"@
}

pub open spec fn g1_mul_not_on_curve_witness(v: VectorFail, c: Seq<Seq<u8>>) -> bool {
    &&& g1_wf(c)
    &&& !g1_on_curve_of(c)
    &&& v.input@ == hex_of(point_bytes(profile_spec(), c, 1) + zero_bytes(64))
    &&& v.expected_error@ == "point is not on curve"@
    &&& v.name@ == "point_not_on_curve"@
}

pub open spec fn is_g1_mul_not_on_curve_vector(v: VectorFail) -> bool {
    exists|c: Seq<Seq<u8>>| g1_mul_not_on_curve_witness(v, c)
}

/// Generates the malformed-input vectors for G1 scalar multiplication.
pub fn gen_fail_g1_mul_vectors(rng: &mut StdRng, max_tries: usize) -> (r: Result<
    Vec<VectorFail>,
    GenError,
>)
    ensures
        r matches Ok(vs) ==> {
            &&& vs@.len() == 5
            &&& invalid_length_triple(vs@.take(3), 256)
            &&& is_g1_mul_large_fe_vector(vs@[3])
            &&& is_g1_mul_not_on_curve_vector(vs@[4])
        },
{
    let mut vectors = gen_fail_vectors(256);
    let ghost triple = vectors@;

    let mut input_bytes = encoded_fe_larger_than_modulus();
    let zeros_y = make_zero_bytes(96);
    extend_bytes(&mut input_bytes, &zeros_y);
    let zeros_e = make_zero_bytes(64);
    extend_bytes(&mut input_bytes, &zeros_e);
    let v3 = VectorFail {
        input: hex_string(&input_bytes),
        expected_error: String::from_str("must be less than modulus"),
        name: String::from_str("large_field_element"),
    };
    vectors.push(v3);

    let c = match rand_g1_point_not_on_curve(rng, max_tries) {
        Ok(c) => c,
        Err(e) => { return Err(e) },
    };
    let mut input2 = encode_g1(&c);
    let zeros_e2 = make_zero_bytes(64);
    extend_bytes(&mut input2, &zeros_e2);
    let v4 = VectorFail {
        input: hex_string(&input2),
        expected_error: String::from_str("point is not on curve"),
        name: String::from_str("point_not_on_curve"),
    };
    proof {
        assert(g1_mul_not_on_curve_witness(v4, comps_view(&c)));
    }
    vectors.push(v4);
    proof {
        assert(vectors@.take(3) =~= triple);
    }
    Ok(vectors)
}

/// The G2 counterparts of the G1 scalar-multiplication failure shapes.
pub open spec fn is_g2_mul_large_fe_vector(v: VectorFail) -> bool {
    &&& v.input@ == hex_of(oversized_fe() + zero_bytes(96) + zero_bytes(64))
    &&& v.expected_error@ == "must be less than modulus"@
    &&& v.name@ == "large_field_element"@
}

pub open spec fn g2_mul_not_on_curve_witness(v: VectorFail, c: Seq<Seq<u8>>) -> bool {
    &&& g2_wf(c)
    &&& !g2_on_curve_of(c)
    &&& v.input@ == hex_of(point_bytes(profile_spec(), c, 1) + zero_bytes(64))
    &&& v.expected_error@ == "point is not on curve"@
    &&& v.name@ == "point_not_on_curve"@
}

pub open spec fn is_g2_mul_not_on_curve_vector(v: VectorFail) -> bool {
    exists|c: Seq<Seq<u8>>| g2_mul_not_on_curve_witness(v, c)
}

/// Generates the malformed-input vectors for G2 scalar multiplication.
pub fn gen_fail_g2_mul_vectors(rng: &mut StdRng, max_tries: usize) -> (r: Result<
    Vec<VectorFail>,
    GenError,
>)
    ensures
        r matches Ok(vs) ==> {
            &&& vs@.len() == 5
            &&& invalid_length_triple(vs@.take(3), 256)
            &&& is_g2_mul_large_fe_vector(vs@[3])
            &&& is_g2_mul_not_on_curve_vector(vs@[4])
        },
{
    let mut vectors = gen_fail_vectors(256);
    let ghost triple = vectors@;

    let mut input_bytes = encoded_fe_larger_than_modulus();
    let zeros_y = make_zero_bytes(96);
    extend_bytes(&mut input_bytes, &zeros_y);
    let zeros_e = make_zero_bytes(64);
    extend_bytes(&mut input_bytes, &zeros_e);
    let v3 = VectorFail {
        input: hex_string(&input_bytes),
        expected_error: String::from_str("must be less than modulus"),
        name: String::from_str("large_field_element"),
    };
    vectors.push(v3);

    let c = match rand_g2_point_not_on_curve(rng, max_tries) {
        Ok(c) => c,
        Err(e) => { return Err(e) },
    };
    let mut input2 = encode_g2(&c);
    let zeros_e2 = make_zero_bytes(64);
    extend_bytes(&mut input2, &zeros_e2);
    let v4 = VectorFail {
        input: hex_string(&input2),
        expected_error: String::from_str("point is not on curve"),
        name: String::from_str("point_not_on_curve"),
    };
    proof {
        assert(g2_mul_not_on_curve_witness(v4, comps_view(&c)));
    }
    vectors.push(v4);
    proof {
        assert(vectors@.take(3) =~= triple);
    }
    Ok(vectors)
}

/// The "field element at least the modulus" vector for the G1
/// multi-scalar-multiplication input shape: two well-formed random
/// (point, scalar) slots, then the oversized element in the third point's
/// x-slot, zeros for its y-coordinate and scalar.
pub open spec fn g1_msm_large_fe_witness(
    v: VectorFail,
    a: Seq<Seq<u8>>,
    e1: Seq<u8>,
    b: Seq<Seq<u8>>,
    e2: Seq<u8>,
) -> bool {
    let p = profile_spec();
    &&& g1_valid(a)
    &&& g1_valid(b)
    &&& fr_wf(e1)
    &&& fr_wf(e2)
    &&& v.input@ == hex_of(
        point_bytes(p, a, 1) + scalar_word(p, e1) + point_bytes(p, b, 1) + scalar_word(p, e2)
            + oversized_fe() + zero_bytes(96) + zero_bytes(64),
    )
    &&& v.expected_error@ == "must be less than modulus"@
    &&& v.name@ == "large_field_element"@
}

pub open spec fn is_g1_msm_large_fe_vector(v: VectorFail) -> bool {
    exists|a: Seq<Seq<u8>>, e1: Seq<u8>, b: Seq<Seq<u8>>, e2: Seq<u8>|
        g1_msm_large_fe_witness(v, a, e1, b, e2)
}

/// The "point not on curve" vector for the G1 multi-scalar-multiplication
/// input shape: two well-formed random slots, then a defective point with
/// a random scalar.
pub open spec fn g1_msm_not_on_curve_witness(
    v: VectorFail,
    a: Seq<Seq<u8>>,
    e1: Seq<u8>,
    b: Seq<Seq<u8>>,
    e2: Seq<u8>,
    c: Seq<Seq<u8>>,
    e3: Seq<u8>,
) -> bool {
    let p = profile_spec();
    &&& g1_valid(a)
    &&& g1_valid(b)
    &&& g1_wf(c)
    &&& fr_wf(e1)
    &&& fr_wf(e2)
    &&& fr_wf(e3)
    &&& !g1_on_curve_of(c)
    &&& v.input@ == hex_of(
        point_bytes(p, a, 1) + scalar_word(p, e1) + point_bytes(p, b, 1) + scalar_word(p, e2)
            + point_bytes(p, c, 1) + scalar_word(p, e3),
    )
    &&& v.expected_error@ == "point is not on curve"@
    &&& v.name@ == "point_not_on_curve"@
}

pub open spec fn is_g1_msm_not_on_curve_vector(v: VectorFail) -> bool {
    exists|a: Seq<Seq<u8>>, e1: Seq<u8>, b: Seq<Seq<u8>>, e2: Seq<u8>, c: Seq<Seq<u8>>, e3: Seq<u8>|
        g1_msm_not_on_curve_witness(v, a, e1, b, e2, c, e3)
}

/// Generates the malformed-input vectors for G1 multi-scalar
/// multiplication (three slots; the defect is injected into exactly one).
pub fn gen_fail_g1_multiexp_vectors(rng: &mut StdRng, max_tries: usize) -> (r: Result<
    Vec<VectorFail>,
    GenError,
>)
    ensures
        r matches Ok(vs) ==> {
            &&& vs@.len() == 5
            &&& invalid_length_triple(vs@.take(3), 768)
            &&& is_g1_msm_large_fe_vector(vs@[3])
            &&& is_g1_msm_not_on_curve_vector(vs@[4])
        },
{
    let mut vectors = gen_fail_vectors(768);
    let ghost triple = vectors@;

    let a = match g1_rand(rng) {
        Some(c) => c,
        None => { return Err(GenError::Arithmetic) },
    };
    let e1 = match fr_rand(rng) {
        Some(c) => c,
        None => { return Err(GenError::Arithmetic) },
    };
    let b = match g1_rand(rng) {
        Some(c) => c,
        None => { return Err(GenError::Arithmetic) },
    };
    let e2 = match fr_rand(rng) {
        Some(c) => c,
        None => { return Err(GenError::Arithmetic) },
    };
    let mut input_bytes = encode_g1(&a);
    let e1_bytes = encode_fr(&e1);
    extend_bytes(&mut input_bytes, &e1_bytes);
    let b_bytes = encode_g1(&b);
    extend_bytes(&mut input_bytes, &b_bytes);
    let e2_bytes = encode_fr(&e2);
    extend_bytes(&mut input_bytes, &e2_bytes);
    let big = encoded_fe_larger_than_modulus();
    extend_bytes(&mut input_bytes, &big);
    let zeros_y = make_zero_bytes(96);
    extend_bytes(&mut input_bytes, &zeros_y);
    let zeros_e = make_zero_bytes(64);
    extend_bytes(&mut input_bytes, &zeros_e);
    let v3 = VectorFail {
        input: hex_string(&input_bytes),
        expected_error: String::from_str("must be less than modulus"),
        name: String::from_str("large_field_element"),
    };
    proof {
        assert(g1_msm_large_fe_witness(v3, comps_view(&a), e1@, comps_view(&b), e2@));
    }
    vectors.push(v3);

    let a2 = match g1_rand(rng) {
        Some(c) => c,
        None => { return Err(GenError::Arithmetic) },
    };
    let f1 = match fr_rand(rng) {
        Some(c) => c,
        None => { return Err(GenError::Arithmetic) },
    };
    let b2 = match g1_rand(rng) {
        Some(c) => c,
        None => { return Err(GenError::Arithmetic) },
    };
    let f2 = match fr_rand(rng) {
        Some(c) => c,
        None => { return Err(GenError::Arithmetic) },
    };
    let c = match rand_g1_point_not_on_curve(rng, max_tries) {
        Ok(c) => c,
        Err(e) => { return Err(e) },
    };
    let f3 = match fr_rand(rng) {
        Some(c) => c,
        None => { return Err(GenError::Arithmetic) },
    };
    let mut input2 = encode_g1(&a2);
    let f1_bytes = encode_fr(&f1);
    extend_bytes(&mut input2, &f1_bytes);
    let b2_bytes = encode_g1(&b2);
    extend_bytes(&mut input2, &b2_bytes);
    let f2_bytes = encode_fr(&f2);
    extend_bytes(&mut input2, &f2_bytes);
    let c_bytes = encode_g1(&c);
    extend_bytes(&mut input2, &c_bytes);
    let f3_bytes = encode_fr(&f3);
    extend_bytes(&mut input2, &f3_bytes);
    let v4 = VectorFail {
        input: hex_string(&input2),
        expected_error: String::from_str("point is not on curve"),
        name: String::from_str("point_not_on_curve"),
    };
    proof {
        assert(g1_msm_not_on_curve_witness(
            v4,
            comps_view(&a2),
            f1@,
            comps_view(&b2),
            f2@,
            comps_view(&c),
            f3@,
        ));
    }
    vectors.push(v4);
    proof {
        assert(vectors@.take(3) =~= triple);
    }
    Ok(vectors)
}

/// The G2 counterparts of the G1 multi-scalar-multiplication failure
/// shapes.
pub open spec fn g2_msm_large_fe_witness(
    v: VectorFail,
    a: Seq<Seq<u8>>,
    e1: Seq<u8>,
    b: Seq<Seq<u8>>,
    e2: Seq<u8>,
) -> bool {
    let p = profile_spec();
    &&& g2_valid(a)
    &&& g2_valid(b)
    &&& fr_wf(e1)
    &&& fr_wf(e2)
    &&& v.input@ == hex_of(
        point_bytes(p, a, 1) + scalar_word(p, e1) + point_bytes(p, b, 1) + scalar_word(p, e2)
            + oversized_fe() + zero_bytes(96) + zero_bytes(64),
    )
    &&& v.expected_error@ == "must be less than modulus"@
    &&& v.name@ == "large_field_element"@
}

pub open spec fn is_g2_msm_large_fe_vector(v: VectorFail) -> bool {
    exists|a: Seq<Seq<u8>>, e1: Seq<u8>, b: Seq<Seq<u8>>, e2: Seq<u8>|
        g2_msm_large_fe_witness(v, a, e1, b, e2)
}

pub open spec fn g2_msm_not_on_curve_witness(
    v: VectorFail,
    a: Seq<Seq<u8>>,
    e1: Seq<u8>,
    b: Seq<Seq<u8>>,
    e2: Seq<u8>,
    c: Seq<Seq<u8>>,
    e3: Seq<u8>,
) -> bool {
    let p = profile_spec();
    &&& g2_valid(a)
    &&& g2_valid(b)
    &&& g2_wf(c)
    &&& fr_wf(e1)
    &&& fr_wf(e2)
    &&& fr_wf(e3)
    &&& !g2_on_curve_of(c)
    &&& v.input@ == hex_of(
        point_bytes(p, a, 1) + scalar_word(p, e1) + point_bytes(p, b, 1) + scalar_word(p, e2)
            + point_bytes(p, c, 1) + scalar_word(p, e3),
    )
    &&& v.expected_error@ == "point is not on curve"@
    &&& v.name@ == "point_not_on_curve"@
}

pub open spec fn is_g2_msm_not_on_curve_vector(v: VectorFail) -> bool {
    exists|a: Seq<Seq<u8>>, e1: Seq<u8>, b: Seq<Seq<u8>>, e2: Seq<u8>, c: Seq<Seq<u8>>, e3: Seq<u8>|
        g2_msm_not_on_curve_witness(v, a, e1, b, e2, c, e3)
}

/// Generates the malformed-input vectors for G2 multi-scalar
/// multiplication.
pub fn gen_fail_g2_multiexp_vectors(rng: &mut StdRng, max_tries: usize) -> (r: Result<
    Vec<VectorFail>,
    GenError,
>)
    ensures
        r matches Ok(vs) ==> {
            &&& vs@.len() == 5
            &&& invalid_length_triple(vs@.take(3), 768)
            &&& is_g2_msm_large_fe_vector(vs@[3])
            &&& is_g2_msm_not_on_curve_vector(vs@[4])
        },
{
    let mut vectors = gen_fail_vectors(768);
    let ghost triple = vectors@;

    let a = match g2_rand(rng) {
        Some(c) => c,
        None => { return Err(GenError::Arithmetic) },
    };
    let e1 = match fr_rand(rng) {
        Some(c) => c,
        None => { return Err(GenError::Arithmetic) },
    };
    let b = match g2_rand(rng) {
        Some(c) => c,
        None => { return Err(GenError::Arithmetic) },
    };
    let e2 = match fr_rand(rng) {
        Some(c) => c,
        None => { return Err(GenError::Arithmetic) },
    };
    let mut input_bytes = encode_g2(&a);
    let e1_bytes = encode_fr(&e1);
    extend_bytes(&mut input_bytes, &e1_bytes);
    let b_bytes = encode_g2(&b);
    extend_bytes(&mut input_bytes, &b_bytes);
    let e2_bytes = encode_fr(&e2);
    extend_bytes(&mut input_bytes, &e2_bytes);
    let big = encoded_fe_larger_than_modulus();
    extend_bytes(&mut input_bytes, &big);
    let zeros_y = make_zero_bytes(96);
    extend_bytes(&mut input_bytes, &zeros_y);
    let zeros_e = make_zero_bytes(64);
    extend_bytes(&mut input_bytes, &zeros_e);
    let v3 = VectorFail {
        input: hex_string(&input_bytes),
        expected_error: String::from_str("must be less than modulus"),
        name: String::from_str("large_field_element"),
    };
    proof {
        assert(g2_msm_large_fe_witness(v3, comps_view(&a), e1@, comps_view(&b), e2@));
    }
    vectors.push(v3);

    let a2 = match g2_rand(rng) {
        Some(c) => c,
        None => { return Err(GenError::Arithmetic) },
    };
    let f1 = match fr_rand(rng) {
        Some(c) => c,
        None => { return Err(GenError::Arithmetic) },
    };
    let b2 = match g2_rand(rng) {
        Some(c) => c,
        None => { return Err(GenError::Arithmetic) },
    };
    let f2 = match fr_rand(rng) {
        Some(c) => c,
        None => { return Err(GenError::Arithmetic) },
    };
    let c = match rand_g2_point_not_on_curve(rng, max_tries) {
        Ok(c) => c,
        Err(e) => { return Err(e) },
    };
    let f3 = match fr_rand(rng) {
        Some(c) => c,
        None => { return Err(GenError::Arithmetic) },
    };
    let mut input2 = encode_g2(&a2);
    let f1_bytes = encode_fr(&f1);
    extend_bytes(&mut input2, &f1_bytes);
    let b2_bytes = encode_g2(&b2);
    extend_bytes(&mut input2, &b2_bytes);
    let f2_bytes = encode_fr(&f2);
    extend_bytes(&mut input2, &f2_bytes);
    let c_bytes = encode_g2(&c);
    extend_bytes(&mut input2, &c_bytes);
    let f3_bytes = encode_fr(&f3);
    extend_bytes(&mut input2, &f3_bytes);
    let v4 = VectorFail {
        input: hex_string(&input2),
        expected_error: String::from_str("point is not on curve"),
        name: String::from_str("point_not_on_curve"),
    };
    proof {
        assert(g2_msm_not_on_curve_witness(
            v4,
            comps_view(&a2),
            f1@,
            comps_view(&b2),
            f2@,
            comps_view(&c),
            f3@,
        ));
    }
    vectors.push(v4);
    proof {
        assert(vectors@.take(3) =~= triple);
    }
    Ok(vectors)
}

/// Two well-formed random pairs followed by a third pair whose slots the
/// pairing failure vectors vary: the common prefix of every defective
/// multi-pairing input.
pub open spec fn pairing_prefix(
    a1: Seq<Seq<u8>>,
    a2: Seq<Seq<u8>>,
    b1: Seq<Seq<u8>>,
    b2: Seq<Seq<u8>>,
) -> Seq<u8> {
    let p = profile_spec();
    point_bytes(p, a1, 1) + point_bytes(p, a2, 1) + point_bytes(p, b1, 1) + point_bytes(p, b2, 1)
}

/// Two valid random pairs: every operand is a group element.
pub open spec fn pairing_pairs_valid(
    a1: Seq<Seq<u8>>,
    a2: Seq<Seq<u8>>,
    b1: Seq<Seq<u8>>,
    b2: Seq<Seq<u8>>,
) -> bool {
    &&& g1_valid(a1)
    &&& g2_valid(a2)
    &&& g1_valid(b1)
    &&& g2_valid(b2)
}

/// The "field element at least the modulus" vector for the arity-3
/// multi-pairing input shape: two well-formed pairs, then the oversized
/// element in the third pair's first slot and zeros for the rest.
pub open spec fn pairing_large_fe_witness(
    v: VectorFail,
    a1: Seq<Seq<u8>>,
    a2: Seq<Seq<u8>>,
    b1: Seq<Seq<u8>>,
    b2: Seq<Seq<u8>>,
) -> bool {
    &&& pairing_pairs_valid(a1, a2, b1, b2)
    &&& v.input@ == hex_of(pairing_prefix(a1, a2, b1, b2) + oversized_fe() + zero_bytes(288))
    &&& v.expected_error@ == "must be less than modulus"@
    &&& v.name@ == "large_field_element"@
}

pub open spec fn is_pairing_large_fe_vector(v: VectorFail) -> bool {
    exists|a1: Seq<Seq<u8>>, a2: Seq<Seq<u8>>, b1: Seq<Seq<u8>>, b2: Seq<Seq<u8>>|
        pairing_large_fe_witness(v, a1, a2, b1, b2)
}

/// The "G1 point not on curve" pairing vector: the defective G1 operand
/// sits in the third pair.
pub open spec fn pairing_not_on_curve_g1_witness(
    v: VectorFail,
    a1: Seq<Seq<u8>>,
    a2: Seq<Seq<u8>>,
    b1: Seq<Seq<u8>>,
    b2: Seq<Seq<u8>>,
    c1: Seq<Seq<u8>>,
    c2: Seq<Seq<u8>>,
) -> bool {
    let p = profile_spec();
    &&& pairing_pairs_valid(a1, a2, b1, b2)
    &&& g1_wf(c1)
    &&& g2_valid(c2)
    &&& !g1_on_curve_of(c1)
    &&& v.input@ == hex_of(
        pairing_prefix(a1, a2, b1, b2) + point_bytes(p, c1, 1) + point_bytes(p, c2, 1),
    )
    &&& v.expected_error@ == "point is not on curve"@
    &&& v.name@ == "point_not_on_curve_g1"@
}

pub open spec fn is_pairing_not_on_curve_g1_vector(v: VectorFail) -> bool {
    exists|
        a1: Seq<Seq<u8>>,
        a2: Seq<Seq<u8>>,
        b1: Seq<Seq<u8>>,
        b2: Seq<Seq<u8>>,
        c1: Seq<Seq<u8>>,
        c2: Seq<Seq<u8>>,
    | pairing_not_on_curve_g1_witness(v, a1, a2, b1, b2, c1, c2)
}

/// The "G2 point not on curve" pairing vector.
pub open spec fn pairing_not_on_curve_g2_witness(
    v: VectorFail,
    a1: Seq<Seq<u8>>,
    a2: Seq<Seq<u8>>,
    b1: Seq<Seq<u8>>,
    b2: Seq<Seq<u8>>,
    c1: Seq<Seq<u8>>,
    c2: Seq<Seq<u8>>,
) -> bool {
    let p = profile_spec();
    &&& pairing_pairs_valid(a1, a2, b1, b2)
    &&& g1_valid(c1)
    &&& g2_wf(c2)
    &&& !g2_on_curve_of(c2)
    &&& v.input@ == hex_of(
        pairing_prefix(a1, a2, b1, b2) + point_bytes(p, c1, 1) + point_bytes(p, c2, 1),
    )
    &&& v.expected_error@ == "point is not on curve"@
    &&& v.name@ == "point_not_on_curve_g2"@
}

pub open spec fn is_pairing_not_on_curve_g2_vector(v: VectorFail) -> bool {
    exists|
        a1: Seq<Seq<u8>>,
        a2: Seq<Seq<u8>>,
        b1: Seq<Seq<u8>>,
        b2: Seq<Seq<u8>>,
        c1: Seq<Seq<u8>>,
        c2: Seq<Seq<u8>>,
    | pairing_not_on_curve_g2_witness(v, a1, a2, b1, b2, c1, c2)
}

/// The "G1 point on curve but in the wrong subgroup" pairing vector.
pub open spec fn pairing_wrong_subgroup_g1_witness(
    v: VectorFail,
    a1: Seq<Seq<u8>>,
    a2: Seq<Seq<u8>>,
    b1: Seq<Seq<u8>>,
    b2: Seq<Seq<u8>>,
    c1: Seq<Seq<u8>>,
    c2: Seq<Seq<u8>>,
) -> bool {
    let p = profile_spec();
    &&& pairing_pairs_valid(a1, a2, b1, b2)
    &&& g1_wf(c1)
    &&& g2_valid(c2)
    &&& g1_on_curve_of(c1)
    &&& !g1_in_subgroup_of(c1)
    &&& v.input@ == hex_of(
        pairing_prefix(a1, a2, b1, b2) + point_bytes(p, c1, 1) + point_bytes(p, c2, 1),
    )
    &&& v.expected_error@ == "g1 point is not on correct subgroup"@
    &&& v.name@ == "incorrect_subgroup_g1"@
}

pub open spec fn is_pairing_wrong_subgroup_g1_vector(v: VectorFail) -> bool {
    exists|
        a1: Seq<Seq<u8>>,
        a2: Seq<Seq<u8>>,
        b1: Seq<Seq<u8>>,
        b2: Seq<Seq<u8>>,
        c1: Seq<Seq<u8>>,
        c2: Seq<Seq<u8>>,
    | pairing_wrong_subgroup_g1_witness(v, a1, a2, b1, b2, c1, c2)
}

/// The "G2 point on curve but in the wrong subgroup" pairing vector.
pub open spec fn pairing_wrong_subgroup_g2_witness(
    v: VectorFail,
    a1: Seq<Seq<u8>>,
    a2: Seq<Seq<u8>>,
    b1: Seq<Seq<u8>>,
    b2: Seq<Seq<u8>>,
    c1: Seq<Seq<u8>>,
    c2: Seq<Seq<u8>>,
) -> bool {
    let p = profile_spec();
    &&& pairing_pairs_valid(a1, a2, b1, b2)
    &&& g1_valid(c1)
    &&& g2_wf(c2)
    &&& g2_on_curve_of(c2)
    &&& !g2_in_subgroup_of(c2)
    &&& v.input@ == hex_of(
        pairing_prefix(a1, a2, b1, b2) + point_bytes(p, c1, 1) + point_bytes(p, c2, 1),
    )
    &&& v.expected_error@ == "g2 point is not on correct subgroup"@
    &&& v.name@ == "incorrect_subgroup_g2"@
}

pub open spec fn is_pairing_wrong_subgroup_g2_vector(v: VectorFail) -> bool {
    exists|
        a1: Seq<Seq<u8>>,
        a2: Seq<Seq<u8>>,
        b1: Seq<Seq<u8>>,
        b2: Seq<Seq<u8>>,
        c1: Seq<Seq<u8>>,
        c2: Seq<Seq<u8>>,
    | pairing_wrong_subgroup_g2_witness(v, a1, a2, b1, b2, c1, c2)
}

/// Samples two well-formed random pairs and returns their concatenated
/// encodings: the common prefix of every defective multi-pairing input.
fn sample_pairing_prefix(rng: &mut StdRng) -> (r: Result<
    (Vec<u8>, Ghost<(Seq<Seq<u8>>, Seq<Seq<u8>>, Seq<Seq<u8>>, Seq<Seq<u8>>)>),
    GenError,
>)
    ensures
        r matches Ok(pw) ==> {
            &&& pairing_pairs_valid(pw.1@.0, pw.1@.1, pw.1@.2, pw.1@.3)
            &&& pw.0@ == pairing_prefix(pw.1@.0, pw.1@.1, pw.1@.2, pw.1@.3)
        },
{
    let a1 = match g1_rand(rng) {
        Some(c) => c,
        None => { return Err(GenError::Arithmetic) },
    };
    let a2 = match g2_rand(rng) {
        Some(c) => c,
        None => { return Err(GenError::Arithmetic) },
    };
    let b1 = match g1_rand(rng) {
        Some(c) => c,
        None => { return Err(GenError::Arithmetic) },
    };
    let b2 = match g2_rand(rng) {
        Some(c) => c,
        None => { return Err(GenError::Arithmetic) },
    };
    let mut out: Vec<u8> = Vec::new();
    let a1_bytes = encode_g1(&a1);
    extend_bytes(&mut out, &a1_bytes);
    let a2_bytes = encode_g2(&a2);
    extend_bytes(&mut out, &a2_bytes);
    let b1_bytes = encode_g1(&b1);
    extend_bytes(&mut out, &b1_bytes);
    let b2_bytes = encode_g2(&b2);
    extend_bytes(&mut out, &b2_bytes);
    let ghost w = (comps_view(&a1), comps_view(&a2), comps_view(&b1), comps_view(&b2));
    proof {
        assert(out@ =~= pairing_prefix(w.0, w.1, w.2, w.3));
    }
    Ok((out, Ghost(w)))
}

/// Generates the malformed-input vectors for the arity-3 multi-pairing:
/// the three invalid lengths, an oversized field element, a G1 and a G2
/// operand off the curve, and a G1 and a G2 operand on the curve but
/// outside the prime-order subgroup; each defect is injected into exactly
/// one slot among otherwise well-formed random operands.
pub fn gen_fail_pairing(rng: &mut StdRng, max_tries: usize) -> (r: Result<Vec<VectorFail>, GenError>)
    ensures
        r matches Ok(vs) ==> {
            &&& vs@.len() == 8
            &&& invalid_length_triple(vs@.take(3), 1152)
            &&& is_pairing_large_fe_vector(vs@[3])
            &&& is_pairing_not_on_curve_g1_vector(vs@[4])
            &&& is_pairing_not_on_curve_g2_vector(vs@[5])
            &&& is_pairing_wrong_subgroup_g1_vector(vs@[6])
            &&& is_pairing_wrong_subgroup_g2_vector(vs@[7])
        },
{
    let mut vectors = gen_fail_vectors(1152);
    let ghost triple = vectors@;

    let (mut input3, w3) = match sample_pairing_prefix(rng) {
        Ok(pw) => pw,
        Err(e) => { return Err(e) },
    };
    let big = encoded_fe_larger_than_modulus();
    extend_bytes(&mut input3, &big);
    let zeros = make_zero_bytes(288);
    extend_bytes(&mut input3, &zeros);
    let v3 = VectorFail {
        input: hex_string(&input3),
        expected_error: String::from_str("must be less than modulus"),
        name: String::from_str("large_field_element"),
    };
    proof {
        let (a1, a2, b1, b2) = (w3@.0, w3@.1, w3@.2, w3@.3);
        assert(pairing_large_fe_witness(v3, a1, a2, b1, b2));
    }
    vectors.push(v3);

    let c1 = match rand_g1_point_not_on_curve(rng, max_tries) {
        Ok(c) => c,
        Err(e) => { return Err(e) },
    };
    let c2 = match g2_rand(rng) {
        Some(c) => c,
        None => { return Err(GenError::Arithmetic) },
    };
    let (mut input4, w4) = match sample_pairing_prefix(rng) {
        Ok(pw) => pw,
        Err(e) => { return Err(e) },
    };
    let c1_bytes = encode_g1(&c1);
    extend_bytes(&mut input4, &c1_bytes);
    let c2_bytes = encode_g2(&c2);
    extend_bytes(&mut input4, &c2_bytes);
    let v4 = VectorFail {
        input: hex_string(&input4),
        expected_error: String::from_str("point is not on curve"),
        name: String::from_str("point_not_on_curve_g1"),
    };
    proof {
        let (a1, a2, b1, b2) = (w4@.0, w4@.1, w4@.2, w4@.3);
        assert(pairing_not_on_curve_g1_witness(v4, a1, a2, b1, b2, comps_view(&c1), comps_view(&c2)));
    }
    vectors.push(v4);

    let d1 = match g1_rand(rng) {
        Some(c) => c,
        None => { return Err(GenError::Arithmetic) },
    };
    let d2 = match rand_g2_point_not_on_curve(rng, max_tries) {
        Ok(c) => c,
        Err(e) => { return Err(e) },
    };
    let (mut input5, w5) = match sample_pairing_prefix(rng) {
        Ok(pw) => pw,
        Err(e) => { return Err(e) },
    };
    let d1_bytes = encode_g1(&d1);
    extend_bytes(&mut input5, &d1_bytes);
    let d2_bytes = encode_g2(&d2);
    extend_bytes(&mut input5, &d2_bytes);
    let v5 = VectorFail {
        input: hex_string(&input5),
        expected_error: String::from_str("point is not on curve"),
        name: String::from_str("point_not_on_curve_g2"),
    };
    proof {
        let (a1, a2, b1, b2) = (w5@.0, w5@.1, w5@.2, w5@.3);
        assert(pairing_not_on_curve_g2_witness(v5, a1, a2, b1, b2, comps_view(&d1), comps_view(&d2)));
    }
    vectors.push(v5);

    let s1 = match rand_g1_point_not_on_correct_subgroup(rng, max_tries) {
        Ok(c) => c,
        Err(e) => { return Err(e) },
    };
    let s2 = match g2_rand(rng) {
        Some(c) => c,
        None => { return Err(GenError::Arithmetic) },
    };
    let (mut input6, w6) = match sample_pairing_prefix(rng) {
        Ok(pw) => pw,
        Err(e) => { return Err(e) },
    };
    let s1_bytes = encode_g1(&s1);
    extend_bytes(&mut input6, &s1_bytes);
    let s2_bytes = encode_g2(&s2);
    extend_bytes(&mut input6, &s2_bytes);
    let v6 = VectorFail {
        input: hex_string(&input6),
        expected_error: String::from_str("g1 point is not on correct subgroup"),
        name: String::from_str("incorrect_subgroup_g1"),
    };
    proof {
        let (a1, a2, b1, b2) = (w6@.0, w6@.1, w6@.2, w6@.3);
        assert(pairing_wrong_subgroup_g1_witness(v6, a1, a2, b1, b2, comps_view(&s1), comps_view(&s2)));
    }
    vectors.push(v6);

    let t1 = match g1_rand(rng) {
        Some(c) => c,
        None => { return Err(GenError::Arithmetic) },
    };
    let t2 = match rand_g2_point_not_on_correct_subgroup(rng, max_tries) {
        Ok(c) => c,
        Err(e) => { return Err(e) },
    };
    let (mut input7, w7) = match sample_pairing_prefix(rng) {
        Ok(pw) => pw,
        Err(e) => { return Err(e) },
    };
    let t1_bytes = encode_g1(&t1);
    extend_bytes(&mut input7, &t1_bytes);
    let t2_bytes = encode_g2(&t2);
    extend_bytes(&mut input7, &t2_bytes);
    let v7 = VectorFail {
        input: hex_string(&input7),
        expected_error: String::from_str("g2 point is not on correct subgroup"),
        name: String::from_str("incorrect_subgroup_g2"),
    };
    proof {
        let (a1, a2, b1, b2) = (w7@.0, w7@.1, w7@.2, w7@.3);
        assert(pairing_wrong_subgroup_g2_witness(v7, a1, a2, b1, b2, comps_view(&t1), comps_view(&t2)));
    }
    vectors.push(v7);

    proof {
        assert(vectors@.take(3) =~= triple);
    }
    Ok(vectors)
}

/// A scalar-multiplication vector whose scalar is zero records the
/// encoding of the identity, the all-zero infinity sentinel, as its
/// expected output, regardless of the point operand.
pub proof fn lemma_g1_mul_by_zero_yields_infinity(
    v: VectorSuccess,
    a: Seq<Seq<u8>>,
    e: Seq<u8>,
    idx: int,
)
    requires
        g1_mul_witness(v, a, e, idx),
        is_zero_seq(e),
    ensures
        v.expected@ == hex_of(zero_bytes(192)),
{
    assert(g1_scale(a, e) == zero_comps(2, 96));
    assert(comps_wf(zero_comps(2, 96), 2, 1 * profile_spec().fe_size));
    assert(is_zero_comps(zero_comps(2, 96)));
    crate::codec::lemma_zero_point_bytes(profile_spec(), zero_comps(2, 96), 1);
}

/// The G2 counterpart: a zero scalar yields the all-zero G2 infinity
/// encoding.
pub proof fn lemma_g2_mul_by_zero_yields_infinity(
    v: VectorSuccess,
    a: Seq<Seq<u8>>,
    e: Seq<u8>,
    idx: int,
)
    requires
        g2_mul_witness(v, a, e, idx),
        is_zero_seq(e),
    ensures
        v.expected@ == hex_of(zero_bytes(192)),
{
    assert(g2_scale(a, e) == zero_comps(2, 96));
    assert(comps_wf(zero_comps(2, 96), 2, 1 * profile_spec().fe_size));
    assert(is_zero_comps(zero_comps(2, 96)));
    crate::codec::lemma_zero_point_bytes(profile_spec(), zero_comps(2, 96), 1);
}

} // verus!
