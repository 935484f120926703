//! Vector generation for the curve family with 48-byte base-field
//! elements padded to 64-byte words, unpadded 32-byte scalars, and a G2
//! group over a degree-2 extension field.
//!
//! Group and field arithmetic is supplied by the external library
//! `ark_bls12_377`; every call to it goes through a trusted wrapper that
//! moves nothing but plain bytes.  A point is carried as its two affine
//! coordinates, each the canonical little-endian serialization of the
//! coordinate's (extension-)field element; the all-zero coordinate pair
//! stands for the point at infinity.

use vstd::prelude::*;

use crate::codec::{
    bytes_all_zero, comps_all_zero, comps_view, comps_wf, copy_comps, encode_point,
    encode_scalar_word, extend_bytes, hex_of, hex_string, is_zero_comps, is_zero_seq,
    make_zero_bytes, point_bytes, scalar_word, zero_bytes, zero_comps, zero_comps_vec,
};
use crate::profile::CurveProfile;
use crate::records::{
    false_sentinel, false_sentinel_bytes, true_sentinel, true_sentinel_bytes, GenError,
    VectorSuccess,
};

use ark_ec::{AffineRepr, CurveGroup};
use ark_serialize::{CanonicalDeserialize, CanonicalSerialize};
use ark_std::UniformRand;
use rand::rngs::StdRng;

verus! {

/// The byte geometry of this family's calldata convention.
pub open spec fn profile_spec() -> CurveProfile {
    CurveProfile {
        fe_size: 48,
        word_size: 64,
        scalar_size: 32,
        scalar_word_size: 32,
        g1_ext: 1,
        g2_ext: 2,
    }
}

/// The profile instance, validated once at construction.
pub fn profile() -> (p: CurveProfile)
    ensures
        p == profile_spec(),
        p.wf(),
{
    CurveProfile {
        fe_size: 48,
        word_size: 64,
        scalar_size: 32,
        scalar_word_size: 32,
        g1_ext: 1,
        g2_ext: 2,
    }
}

/// Well-formed G1 coordinates: two 48-byte coordinates.
pub open spec fn g1_wf(c: Seq<Seq<u8>>) -> bool {
    comps_wf(c, 2, 48)
}

/// Well-formed G2 coordinates: two 96-byte coordinates (each a degree-2
/// extension element, two 48-byte components in order).
pub open spec fn g2_wf(c: Seq<Seq<u8>>) -> bool {
    comps_wf(c, 2, 96)
}

/// Well-formed scalar bytes.
pub open spec fn fr_wf(e: Seq<u8>) -> bool {
    e.len() == 32
}

/// What the external G1 addition returns for the given canonical affine
/// coordinate bytes of two points, neither the identity.
pub uninterp spec fn g1_sum_of(a: Seq<Seq<u8>>, b: Seq<Seq<u8>>) -> Seq<Seq<u8>>;

/// What the external G2 addition returns for the given coordinate bytes.
pub uninterp spec fn g2_sum_of(a: Seq<Seq<u8>>, b: Seq<Seq<u8>>) -> Seq<Seq<u8>>;

/// What the external G1 scalar multiplication returns for the given
/// coordinate bytes and non-zero canonical scalar bytes.
pub uninterp spec fn g1_smul_of(p: Seq<Seq<u8>>, e: Seq<u8>) -> Seq<Seq<u8>>;

/// What the external G2 scalar multiplication returns.
pub uninterp spec fn g2_smul_of(p: Seq<Seq<u8>>, e: Seq<u8>) -> Seq<Seq<u8>>;

/// What the external scalar-field multiplication returns for the given
/// canonical scalar bytes.
pub uninterp spec fn fr_mul_of(a: Seq<u8>, b: Seq<u8>) -> Seq<u8>;

/// What the external scalar-field addition returns.
pub uninterp spec fn fr_add_of(a: Seq<u8>, b: Seq<u8>) -> Seq<u8>;

/// What the external scalar-field negation returns.
pub uninterp spec fn fr_neg_of(a: Seq<u8>) -> Seq<u8>;

/// Whether the external base-field deserialization accepts the given
/// bytes as one canonical field element.
pub uninterp spec fn fq_canonical_of(b: Seq<u8>) -> bool;

/// Whether the external extension-field deserialization accepts the
/// given bytes as one canonical degree-2 extension element.
pub uninterp spec fn fq2_canonical_of(b: Seq<u8>) -> bool;

/// Whether the external scalar-field deserialization accepts the given
/// bytes as one canonical scalar.
pub uninterp spec fn fr_canonical_of(b: Seq<u8>) -> bool;

/// Both G1 coordinates accepted as canonical base-field elements.
pub open spec fn g1_point_canonical(c: Seq<Seq<u8>>) -> bool {
    fq_canonical_of(c[0]) && fq_canonical_of(c[1])
}

/// Both G2 coordinates accepted as canonical extension elements.
pub open spec fn g2_point_canonical(c: Seq<Seq<u8>>) -> bool {
    fq2_canonical_of(c[0]) && fq2_canonical_of(c[1])
}

/// Relies on `ark_bls12_377` / `ark_ec`: a uniformly random G1 group
/// element, as the canonical little-endian bytes of its affine
/// coordinates.  Each coordinate serializes to exactly 48 bytes; nothing
/// more can be promised of a random draw.
#[verifier::external_body]
fn g1_rand(rng: &mut StdRng) -> (r: Option<Vec<Vec<u8>>>)
    ensures
        r matches Some(c) ==> g1_wf(comps_view(&c)),
{
    let p = ark_bls12_377::G1Projective::rand(rng).into_affine();
    let mut x: Vec<u8> = Vec::new();
    let mut y: Vec<u8> = Vec::new();
    p.x.serialize_uncompressed(&mut x).ok()?;
    p.y.serialize_uncompressed(&mut y).ok()?;
    Some(vec![x, y])
}

/// Relies on `ark_bls12_377` / `ark_ec`: a uniformly random G2 group
/// element, as the canonical little-endian bytes of its two extension
/// coordinates (96 bytes each, low component first).
#[verifier::external_body]
fn g2_rand(rng: &mut StdRng) -> (r: Option<Vec<Vec<u8>>>)
    ensures
        r matches Some(c) ==> g2_wf(comps_view(&c)),
{
    let p = ark_bls12_377::G2Projective::rand(rng).into_affine();
    let mut x: Vec<u8> = Vec::new();
    let mut y: Vec<u8> = Vec::new();
    p.x.serialize_uncompressed(&mut x).ok()?;
    p.y.serialize_uncompressed(&mut y).ok()?;
    Some(vec![x, y])
}

/// Relies on `ark_bls12_377`: a uniformly random scalar, as its canonical
/// 32 little-endian bytes.
#[verifier::external_body]
fn fr_rand(rng: &mut StdRng) -> (r: Option<Vec<u8>>)
    ensures
        r matches Some(e) ==> fr_wf(e@),
{
    let e = ark_bls12_377::Fr::rand(rng);
    let mut buf: Vec<u8> = Vec::new();
    e.serialize_uncompressed(&mut buf).ok()?;
    Some(buf)
}

/// Relies on `ark_bls12_377` / `ark_ec`: the fixed prime-subgroup
/// generator of G1, as coordinate bytes.
#[verifier::external_body]
fn g1_generator() -> (r: Option<Vec<Vec<u8>>>)
    ensures
        r matches Some(c) ==> g1_wf(comps_view(&c)),
{
    let p = ark_bls12_377::G1Affine::generator();
    let mut x: Vec<u8> = Vec::new();
    let mut y: Vec<u8> = Vec::new();
    p.x.serialize_uncompressed(&mut x).ok()?;
    p.y.serialize_uncompressed(&mut y).ok()?;
    Some(vec![x, y])
}

/// Relies on `ark_bls12_377` / `ark_ec`: the fixed prime-subgroup
/// generator of G2, as coordinate bytes.
#[verifier::external_body]
fn g2_generator() -> (r: Option<Vec<Vec<u8>>>)
    ensures
        r matches Some(c) ==> g2_wf(comps_view(&c)),
{
    let p = ark_bls12_377::G2Affine::generator();
    let mut x: Vec<u8> = Vec::new();
    let mut y: Vec<u8> = Vec::new();
    p.x.serialize_uncompressed(&mut x).ok()?;
    p.y.serialize_uncompressed(&mut y).ok()?;
    Some(vec![x, y])
}

/// Relies on `ark_bls12_377` / `ark_ec`: reads two G1 points from their
/// canonical affine coordinate bytes, adds them with the external group
/// law, and returns the sum's coordinate bytes.  `None` exactly when the
/// external library rejects a coordinate as non-canonical.  The result is
/// a function of the input bytes alone.
#[verifier::external_body]
fn g1_add_bytes(a: &Vec<Vec<u8>>, b: &Vec<Vec<u8>>) -> (r: Option<Vec<Vec<u8>>>)
    requires
        a@.len() == 2,
        b@.len() == 2,
    ensures
        (r is Some) == (fq_canonical_of(comps_view(a)[0]) && fq_canonical_of(comps_view(a)[1])
            && fq_canonical_of(comps_view(b)[0]) && fq_canonical_of(comps_view(b)[1])),
        r matches Some(s) ==> g1_wf(comps_view(&s)) && comps_view(&s) == g1_sum_of(
            comps_view(a),
            comps_view(b),
        ),
{
    let ax = ark_bls12_377::Fq::deserialize_uncompressed(a[0].as_slice()).ok()?;
    let ay = ark_bls12_377::Fq::deserialize_uncompressed(a[1].as_slice()).ok()?;
    let bx = ark_bls12_377::Fq::deserialize_uncompressed(b[0].as_slice()).ok()?;
    let by = ark_bls12_377::Fq::deserialize_uncompressed(b[1].as_slice()).ok()?;
    let s = (ark_bls12_377::G1Affine::new_unchecked(ax, ay)
        + ark_bls12_377::G1Affine::new_unchecked(bx, by)).into_affine();
    let mut x: Vec<u8> = Vec::new();
    let mut y: Vec<u8> = Vec::new();
    s.x.serialize_uncompressed(&mut x).ok()?;
    s.y.serialize_uncompressed(&mut y).ok()?;
    Some(vec![x, y])
}

/// Relies on `ark_bls12_377` / `ark_ec`: G2 point addition on coordinate
/// bytes, exactly as the G1 wrapper.
#[verifier::external_body]
fn g2_add_bytes(a: &Vec<Vec<u8>>, b: &Vec<Vec<u8>>) -> (r: Option<Vec<Vec<u8>>>)
    requires
        a@.len() == 2,
        b@.len() == 2,
    ensures
        (r is Some) == (fq2_canonical_of(comps_view(a)[0]) && fq2_canonical_of(
            comps_view(a)[1],
        ) && fq2_canonical_of(comps_view(b)[0]) && fq2_canonical_of(comps_view(b)[1])),
        r matches Some(s) ==> g2_wf(comps_view(&s)) && comps_view(&s) == g2_sum_of(
            comps_view(a),
            comps_view(b),
        ),
{
    let ax = ark_bls12_377::Fq2::deserialize_uncompressed(a[0].as_slice()).ok()?;
    let ay = ark_bls12_377::Fq2::deserialize_uncompressed(a[1].as_slice()).ok()?;
    let bx = ark_bls12_377::Fq2::deserialize_uncompressed(b[0].as_slice()).ok()?;
    let by = ark_bls12_377::Fq2::deserialize_uncompressed(b[1].as_slice()).ok()?;
    let s = (ark_bls12_377::G2Affine::new_unchecked(ax, ay)
        + ark_bls12_377::G2Affine::new_unchecked(bx, by)).into_affine();
    let mut x: Vec<u8> = Vec::new();
    let mut y: Vec<u8> = Vec::new();
    s.x.serialize_uncompressed(&mut x).ok()?;
    s.y.serialize_uncompressed(&mut y).ok()?;
    Some(vec![x, y])
}

/// Relies on `ark_bls12_377` / `ark_ec`: reads a G1 point and a scalar
/// from canonical bytes, multiplies with the external group law, and
/// returns the product's coordinate bytes.  The result is a function of
/// the input bytes alone.
#[verifier::external_body]
fn g1_mul_bytes(p: &Vec<Vec<u8>>, e: &Vec<u8>) -> (r: Option<Vec<Vec<u8>>>)
    requires
        p@.len() == 2,
    ensures
        (r is Some) == (fq_canonical_of(comps_view(p)[0]) && fq_canonical_of(comps_view(p)[1])
            && fr_canonical_of(e@)),
        r matches Some(s) ==> g1_wf(comps_view(&s)) && comps_view(&s) == g1_smul_of(
            comps_view(p),
            e@,
        ),
{
    let x = ark_bls12_377::Fq::deserialize_uncompressed(p[0].as_slice()).ok()?;
    let y = ark_bls12_377::Fq::deserialize_uncompressed(p[1].as_slice()).ok()?;
    let e = ark_bls12_377::Fr::deserialize_uncompressed(e.as_slice()).ok()?;
    let s = (ark_bls12_377::G1Affine::new_unchecked(x, y) * e).into_affine();
    let mut rx: Vec<u8> = Vec::new();
    let mut ry: Vec<u8> = Vec::new();
    s.x.serialize_uncompressed(&mut rx).ok()?;
    s.y.serialize_uncompressed(&mut ry).ok()?;
    Some(vec![rx, ry])
}

/// Relies on `ark_bls12_377` / `ark_ec`: G2 scalar multiplication on
/// coordinate bytes, exactly as the G1 wrapper.
#[verifier::external_body]
fn g2_mul_bytes(p: &Vec<Vec<u8>>, e: &Vec<u8>) -> (r: Option<Vec<Vec<u8>>>)
    requires
        p@.len() == 2,
    ensures
        (r is Some) == (fq2_canonical_of(comps_view(p)[0]) && fq2_canonical_of(
            comps_view(p)[1],
        ) && fr_canonical_of(e@)),
        r matches Some(s) ==> g2_wf(comps_view(&s)) && comps_view(&s) == g2_smul_of(
            comps_view(p),
            e@,
        ),
{
    let x = ark_bls12_377::Fq2::deserialize_uncompressed(p[0].as_slice()).ok()?;
    let y = ark_bls12_377::Fq2::deserialize_uncompressed(p[1].as_slice()).ok()?;
    let e = ark_bls12_377::Fr::deserialize_uncompressed(e.as_slice()).ok()?;
    let s = (ark_bls12_377::G2Affine::new_unchecked(x, y) * e).into_affine();
    let mut rx: Vec<u8> = Vec::new();
    let mut ry: Vec<u8> = Vec::new();
    s.x.serialize_uncompressed(&mut rx).ok()?;
    s.y.serialize_uncompressed(&mut ry).ok()?;
    Some(vec![rx, ry])
}

/// Relies on `ark_bls12_377`: scalar-field multiplication on canonical
/// bytes.  The result is a function of the input bytes alone.
#[verifier::external_body]
fn fr_mul_bytes(a: &Vec<u8>, b: &Vec<u8>) -> (r: Option<Vec<u8>>)
    ensures
        r matches Some(c) ==> fr_wf(c@) && c@ == fr_mul_of(a@, b@),
{
    let x = ark_bls12_377::Fr::deserialize_uncompressed(a.as_slice()).ok()?;
    let y = ark_bls12_377::Fr::deserialize_uncompressed(b.as_slice()).ok()?;
    let mut buf: Vec<u8> = Vec::new();
    (x * y).serialize_uncompressed(&mut buf).ok()?;
    Some(buf)
}

/// Relies on `ark_bls12_377`: scalar-field addition on canonical bytes.
#[verifier::external_body]
fn fr_add_bytes(a: &Vec<u8>, b: &Vec<u8>) -> (r: Option<Vec<u8>>)
    ensures
        r matches Some(c) ==> fr_wf(c@) && c@ == fr_add_of(a@, b@),
{
    let x = ark_bls12_377::Fr::deserialize_uncompressed(a.as_slice()).ok()?;
    let y = ark_bls12_377::Fr::deserialize_uncompressed(b.as_slice()).ok()?;
    let mut buf: Vec<u8> = Vec::new();
    (x + y).serialize_uncompressed(&mut buf).ok()?;
    Some(buf)
}

/// Relies on `ark_bls12_377`: scalar-field negation on canonical bytes.
#[verifier::external_body]
fn fr_neg_bytes(a: &Vec<u8>) -> (r: Option<Vec<u8>>)
    ensures
        r matches Some(c) ==> fr_wf(c@) && c@ == fr_neg_of(a@),
{
    let x = ark_bls12_377::Fr::deserialize_uncompressed(a.as_slice()).ok()?;
    let mut buf: Vec<u8> = Vec::new();
    (-x).serialize_uncompressed(&mut buf).ok()?;
    Some(buf)
}

/// The value of a G1 addition with the identity sentinel handled by the
/// group law: adding the all-zero pair is a no-op, everything else is the
/// external sum.
pub open spec fn g1_combine(a: Seq<Seq<u8>>, b: Seq<Seq<u8>>) -> Seq<Seq<u8>> {
    if is_zero_comps(b) {
        a
    } else if is_zero_comps(a) {
        b
    } else {
        g1_sum_of(a, b)
    }
}

/// The G2 counterpart of `g1_combine`.
pub open spec fn g2_combine(a: Seq<Seq<u8>>, b: Seq<Seq<u8>>) -> Seq<Seq<u8>> {
    if is_zero_comps(b) {
        a
    } else if is_zero_comps(a) {
        b
    } else {
        g2_sum_of(a, b)
    }
}

/// The value of a G1 scalar multiplication with the zero scalar handled
/// by the group law: scaling by zero yields the identity, everything else
/// is the external product.
pub open spec fn g1_scale(p: Seq<Seq<u8>>, e: Seq<u8>) -> Seq<Seq<u8>> {
    if is_zero_seq(e) {
        zero_comps(2, 48)
    } else {
        g1_smul_of(p, e)
    }
}

/// The G2 counterpart of `g1_scale`.
pub open spec fn g2_scale(p: Seq<Seq<u8>>, e: Seq<u8>) -> Seq<Seq<u8>> {
    if is_zero_seq(e) {
        zero_comps(2, 96)
    } else {
        g2_smul_of(p, e)
    }
}

/// Adds two G1 points given as coordinate bytes.
pub fn g1_add_points(a: &Vec<Vec<u8>>, b: &Vec<Vec<u8>>) -> (r: Result<Vec<Vec<u8>>, GenError>)
    requires
        g1_wf(comps_view(a)),
        g1_wf(comps_view(b)),
    ensures
        r matches Ok(c) ==> g1_wf(comps_view(&c)) && comps_view(&c) == g1_combine(
            comps_view(a),
            comps_view(b),
        ),
        (r is Ok) == (is_zero_comps(comps_view(b)) || is_zero_comps(comps_view(a)) || (
        g1_point_canonical(comps_view(a)) && g1_point_canonical(comps_view(b)))),
{
    if comps_all_zero(b) {
        Ok(copy_comps(a))
    } else if comps_all_zero(a) {
        Ok(copy_comps(b))
    } else {
        match g1_add_bytes(a, b) {
            Some(c) => Ok(c),
            None => Err(GenError::Arithmetic),
        }
    }
}

/// Adds two G2 points given as coordinate bytes.
pub fn g2_add_points(a: &Vec<Vec<u8>>, b: &Vec<Vec<u8>>) -> (r: Result<Vec<Vec<u8>>, GenError>)
    requires
        g2_wf(comps_view(a)),
        g2_wf(comps_view(b)),
    ensures
        r matches Ok(c) ==> g2_wf(comps_view(&c)) && comps_view(&c) == g2_combine(
            comps_view(a),
            comps_view(b),
        ),
        (r is Ok) == (is_zero_comps(comps_view(b)) || is_zero_comps(comps_view(a)) || (
        g2_point_canonical(comps_view(a)) && g2_point_canonical(comps_view(b)))),
{
    if comps_all_zero(b) {
        Ok(copy_comps(a))
    } else if comps_all_zero(a) {
        Ok(copy_comps(b))
    } else {
        match g2_add_bytes(a, b) {
            Some(c) => Ok(c),
            None => Err(GenError::Arithmetic),
        }
    }
}

/// Multiplies a G1 point by a scalar, both given as canonical bytes.
pub fn g1_scale_point(p: &Vec<Vec<u8>>, e: &Vec<u8>) -> (r: Result<Vec<Vec<u8>>, GenError>)
    requires
        g1_wf(comps_view(p)),
    ensures
        r matches Ok(c) ==> g1_wf(comps_view(&c)) && comps_view(&c) == g1_scale(
            comps_view(p),
            e@,
        ),
        (r is Ok) == (is_zero_seq(e@) || (g1_point_canonical(comps_view(p)) && fr_canonical_of(
            e@,
        ))),
{
    if bytes_all_zero(e) {
        Ok(zero_comps_vec(2, 48))
    } else {
        match g1_mul_bytes(p, e) {
            Some(c) => Ok(c),
            None => Err(GenError::Arithmetic),
        }
    }
}

/// Multiplies a G2 point by a scalar, both given as canonical bytes.
pub fn g2_scale_point(p: &Vec<Vec<u8>>, e: &Vec<u8>) -> (r: Result<Vec<Vec<u8>>, GenError>)
    requires
        g2_wf(comps_view(p)),
    ensures
        r matches Ok(c) ==> g2_wf(comps_view(&c)) && comps_view(&c) == g2_scale(
            comps_view(p),
            e@,
        ),
        (r is Ok) == (is_zero_seq(e@) || (g2_point_canonical(comps_view(p)) && fr_canonical_of(
            e@,
        ))),
{
    if bytes_all_zero(e) {
        Ok(zero_comps_vec(2, 96))
    } else {
        match g2_mul_bytes(p, e) {
            Some(c) => Ok(c),
            None => Err(GenError::Arithmetic),
        }
    }
}

/// Encodes a G1 point: each coordinate becomes one zero-padded 64-byte
/// big-endian word.
pub fn encode_g1(point: &Vec<Vec<u8>>) -> (r: Vec<u8>)
    requires
        g1_wf(comps_view(point)),
    ensures
        r@ == point_bytes(profile_spec(), comps_view(point), 1),
        r@.len() == 128,
{
    let p = profile();
    assert(forall|i: int| 0 <= i < point@.len() ==> (#[trigger] point@[i])@.len() == 1
        * p.fe_size) by {
        assert(forall|i: int| 0 <= i < point@.len() ==> comps_view(point)[i] == (
        #[trigger] point@[i])@);
    }
    assert(point@.len() == comps_view(point).len());
    encode_point(&p, point, 1)
}

/// Encodes a G2 point: each extension component of each coordinate
/// becomes one zero-padded 64-byte big-endian word, low component first.
pub fn encode_g2(point: &Vec<Vec<u8>>) -> (r: Vec<u8>)
    requires
        g2_wf(comps_view(point)),
    ensures
        r@ == point_bytes(profile_spec(), comps_view(point), 2),
        r@.len() == 256,
{
    let p = profile();
    assert(forall|i: int| 0 <= i < point@.len() ==> (#[trigger] point@[i])@.len() == 2
        * p.fe_size) by {
        assert(forall|i: int| 0 <= i < point@.len() ==> comps_view(point)[i] == (
        #[trigger] point@[i])@);
    }
    assert(point@.len() == comps_view(point).len());
    encode_point(&p, point, 2)
}

/// Encodes a scalar: its canonical bytes in big-endian order, unpadded in
/// this family (the scalar word equals the scalar size).
pub fn encode_fr(e: &Vec<u8>) -> (r: Vec<u8>)
    requires
        fr_wf(e@),
    ensures
        r@ == scalar_word(profile_spec(), e@),
        r@.len() == 32,
{
    let p = profile();
    encode_scalar_word(&p, e)
}

/// An addition vector built from operands `a` and `b`: the input is the
/// two encoded operands, the expected output the encoding of their sum.
pub open spec fn g1_add_witness(v: VectorSuccess, a: Seq<Seq<u8>>, b: Seq<Seq<u8>>) -> bool {
    let p = profile_spec();
    &&& g1_wf(a)
    &&& g1_wf(b)
    &&& g1_wf(g1_combine(a, b))
    &&& v.input@ == hex_of(point_bytes(p, a, 1) + point_bytes(p, b, 1))
    &&& v.expected@ == hex_of(point_bytes(p, g1_combine(a, b), 1))
    &&& v.name is None
}

pub open spec fn is_g1_add_vector(v: VectorSuccess) -> bool {
    exists|a: Seq<Seq<u8>>, b: Seq<Seq<u8>>| g1_add_witness(v, a, b)
}

pub open spec fn g2_add_witness(v: VectorSuccess, a: Seq<Seq<u8>>, b: Seq<Seq<u8>>) -> bool {
    let p = profile_spec();
    &&& g2_wf(a)
    &&& g2_wf(b)
    &&& g2_wf(g2_combine(a, b))
    &&& v.input@ == hex_of(point_bytes(p, a, 2) + point_bytes(p, b, 2))
    &&& v.expected@ == hex_of(point_bytes(p, g2_combine(a, b), 2))
    &&& v.name is None
}

pub open spec fn is_g2_add_vector(v: VectorSuccess) -> bool {
    exists|a: Seq<Seq<u8>>, b: Seq<Seq<u8>>| g2_add_witness(v, a, b)
}

/// A scalar-multiplication vector built from point `a` and scalar `e`:
/// the input is the encoded point followed by the encoded scalar, the
/// expected output the encoding of the product.
pub open spec fn g1_mul_witness(v: VectorSuccess, a: Seq<Seq<u8>>, e: Seq<u8>) -> bool {
    let p = profile_spec();
    &&& g1_wf(a)
    &&& fr_wf(e)
    &&& g1_wf(g1_scale(a, e))
    &&& v.input@ == hex_of(point_bytes(p, a, 1) + scalar_word(p, e))
    &&& v.expected@ == hex_of(point_bytes(p, g1_scale(a, e), 1))
    &&& v.name is None
}

pub open spec fn is_g1_mul_vector(v: VectorSuccess) -> bool {
    exists|a: Seq<Seq<u8>>, e: Seq<u8>| g1_mul_witness(v, a, e)
}

pub open spec fn g2_mul_witness(v: VectorSuccess, a: Seq<Seq<u8>>, e: Seq<u8>) -> bool {
    let p = profile_spec();
    &&& g2_wf(a)
    &&& fr_wf(e)
    &&& g2_wf(g2_scale(a, e))
    &&& v.input@ == hex_of(point_bytes(p, a, 2) + scalar_word(p, e))
    &&& v.expected@ == hex_of(point_bytes(p, g2_scale(a, e), 2))
    &&& v.name is None
}

pub open spec fn is_g2_mul_vector(v: VectorSuccess) -> bool {
    exists|a: Seq<Seq<u8>>, e: Seq<u8>| g2_mul_witness(v, a, e)
}

/// Generates `n` independent G1 addition vectors: for each, two random
/// group elements are sampled, and the recorded expected output is the
/// encoding of their external group sum.
pub fn gen_g1_add_vectors(rng: &mut StdRng, n: usize) -> (r: Result<Vec<VectorSuccess>, GenError>)
    ensures
        n == 0 ==> r is Ok,
        r matches Ok(vs) ==> vs@.len() == n && forall|i: int|
            0 <= i < n ==> is_g1_add_vector(#[trigger] vs@[i]),
{
    let mut vectors: Vec<VectorSuccess> = Vec::new();
    for it in 0..n
        invariant
            vectors@.len() == it,
            forall|k: int| 0 <= k < it ==> is_g1_add_vector(#[trigger] vectors@[k]),
    {
        let a = match g1_rand(rng) {
            Some(c) => c,
            None => { return Err(GenError::Arithmetic) },
        };
        let b = match g1_rand(rng) {
            Some(c) => c,
            None => { return Err(GenError::Arithmetic) },
        };
        let sum = match g1_add_points(&a, &b) {
            Ok(c) => c,
            Err(e) => { return Err(e) },
        };
        let mut input_bytes = encode_g1(&a);
        let b_bytes = encode_g1(&b);
        extend_bytes(&mut input_bytes, &b_bytes);
        let expected_bytes = encode_g1(&sum);
        let v = VectorSuccess {
            input: hex_string(&input_bytes),
            expected: hex_string(&expected_bytes),
            name: None,
        };
        proof {
            assert(g1_add_witness(v, comps_view(&a), comps_view(&b)));
        }
        vectors.push(v);
    }
    Ok(vectors)
}

/// Generates `n` independent G2 addition vectors.
pub fn gen_g2_add_vectors(rng: &mut StdRng, n: usize) -> (r: Result<Vec<VectorSuccess>, GenError>)
    ensures
        n == 0 ==> r is Ok,
        r matches Ok(vs) ==> vs@.len() == n && forall|i: int|
            0 <= i < n ==> is_g2_add_vector(#[trigger] vs@[i]),
{
    let mut vectors: Vec<VectorSuccess> = Vec::new();
    for it in 0..n
        invariant
            vectors@.len() == it,
            forall|k: int| 0 <= k < it ==> is_g2_add_vector(#[trigger] vectors@[k]),
    {
        let a = match g2_rand(rng) {
            Some(c) => c,
            None => { return Err(GenError::Arithmetic) },
        };
        let b = match g2_rand(rng) {
            Some(c) => c,
            None => { return Err(GenError::Arithmetic) },
        };
        let sum = match g2_add_points(&a, &b) {
            Ok(c) => c,
            Err(e) => { return Err(e) },
        };
        let mut input_bytes = encode_g2(&a);
        let b_bytes = encode_g2(&b);
        extend_bytes(&mut input_bytes, &b_bytes);
        let expected_bytes = encode_g2(&sum);
        let v = VectorSuccess {
            input: hex_string(&input_bytes),
            expected: hex_string(&expected_bytes),
            name: None,
        };
        proof {
            assert(g2_add_witness(v, comps_view(&a), comps_view(&b)));
        }
        vectors.push(v);
    }
    Ok(vectors)
}

/// Generates `n` independent G1 scalar-multiplication vectors.
pub fn gen_g1_mul_vectors(rng: &mut StdRng, n: usize) -> (r: Result<Vec<VectorSuccess>, GenError>)
    ensures
        n == 0 ==> r is Ok,
        r matches Ok(vs) ==> vs@.len() == n && forall|i: int|
            0 <= i < n ==> is_g1_mul_vector(#[trigger] vs@[i]),
{
    let mut vectors: Vec<VectorSuccess> = Vec::new();
    for it in 0..n
        invariant
            vectors@.len() == it,
            forall|k: int| 0 <= k < it ==> is_g1_mul_vector(#[trigger] vectors@[k]),
    {
        let a = match g1_rand(rng) {
            Some(c) => c,
            None => { return Err(GenError::Arithmetic) },
        };
        let e = match fr_rand(rng) {
            Some(c) => c,
            None => { return Err(GenError::Arithmetic) },
        };
        let product = match g1_scale_point(&a, &e) {
            Ok(c) => c,
            Err(err) => { return Err(err) },
        };
        let mut input_bytes = encode_g1(&a);
        let e_bytes = encode_fr(&e);
        extend_bytes(&mut input_bytes, &e_bytes);
        let expected_bytes = encode_g1(&product);
        let v = VectorSuccess {
            input: hex_string(&input_bytes),
            expected: hex_string(&expected_bytes),
            name: None,
        };
        proof {
            assert(g1_mul_witness(v, comps_view(&a), e@));
        }
        vectors.push(v);
    }
    Ok(vectors)
}

/// Generates `n` independent G2 scalar-multiplication vectors.
pub fn gen_g2_mul_vectors(rng: &mut StdRng, n: usize) -> (r: Result<Vec<VectorSuccess>, GenError>)
    ensures
        n == 0 ==> r is Ok,
        r matches Ok(vs) ==> vs@.len() == n && forall|i: int|
            0 <= i < n ==> is_g2_mul_vector(#[trigger] vs@[i]),
{
    let mut vectors: Vec<VectorSuccess> = Vec::new();
    for it in 0..n
        invariant
            vectors@.len() == it,
            forall|k: int| 0 <= k < it ==> is_g2_mul_vector(#[trigger] vectors@[k]),
    {
        let a = match g2_rand(rng) {
            Some(c) => c,
            None => { return Err(GenError::Arithmetic) },
        };
        let e = match fr_rand(rng) {
            Some(c) => c,
            None => { return Err(GenError::Arithmetic) },
        };
        let product = match g2_scale_point(&a, &e) {
            Ok(c) => c,
            Err(err) => { return Err(err) },
        };
        let mut input_bytes = encode_g2(&a);
        let e_bytes = encode_fr(&e);
        extend_bytes(&mut input_bytes, &e_bytes);
        let expected_bytes = encode_g2(&product);
        let v = VectorSuccess {
            input: hex_string(&input_bytes),
            expected: hex_string(&expected_bytes),
            name: None,
        };
        proof {
            assert(g2_mul_witness(v, comps_view(&a), e@));
        }
        vectors.push(v);
    }
    Ok(vectors)
}

/// The weighted sum of (point, scalar) pairs, accumulated left to right
/// from the identity.
pub open spec fn g1_msm_value(ps: Seq<Seq<Seq<u8>>>, es: Seq<Seq<u8>>) -> Seq<Seq<u8>>
    decreases ps.len(),
{
    if ps.len() == 0 {
        zero_comps(2, 48)
    } else {
        g1_combine(g1_msm_value(ps.drop_last(), es.drop_last()), g1_scale(ps.last(), es.last()))
    }
}

/// The concatenated encodings of (point, scalar) pairs, in order.
pub open spec fn g1_msm_input(ps: Seq<Seq<Seq<u8>>>, es: Seq<Seq<u8>>) -> Seq<u8>
    decreases ps.len(),
{
    if ps.len() == 0 {
        Seq::empty()
    } else {
        g1_msm_input(ps.drop_last(), es.drop_last()) + point_bytes(profile_spec(), ps.last(), 1)
            + scalar_word(profile_spec(), es.last())
    }
}

pub open spec fn g2_msm_value(ps: Seq<Seq<Seq<u8>>>, es: Seq<Seq<u8>>) -> Seq<Seq<u8>>
    decreases ps.len(),
{
    if ps.len() == 0 {
        zero_comps(2, 96)
    } else {
        g2_combine(g2_msm_value(ps.drop_last(), es.drop_last()), g2_scale(ps.last(), es.last()))
    }
}

pub open spec fn g2_msm_input(ps: Seq<Seq<Seq<u8>>>, es: Seq<Seq<u8>>) -> Seq<u8>
    decreases ps.len(),
{
    if ps.len() == 0 {
        Seq::empty()
    } else {
        g2_msm_input(ps.drop_last(), es.drop_last()) + point_bytes(profile_spec(), ps.last(), 2)
            + scalar_word(profile_spec(), es.last())
    }
}

/// A multi-scalar-multiplication vector of multiplicity `k`: the input is
/// the `k` encoded (point, scalar) pairs in order, the expected output the
/// encoding of the weighted sum.
pub open spec fn g1_msm_witness(
    v: VectorSuccess,
    ps: Seq<Seq<Seq<u8>>>,
    es: Seq<Seq<u8>>,
    k: int,
) -> bool {
    &&& ps.len() == k
    &&& es.len() == k
    &&& k >= 1
    &&& (forall|j: int| 0 <= j < k ==> g1_wf(#[trigger] ps[j]))
    &&& (forall|j: int| 0 <= j < k ==> fr_wf(#[trigger] es[j]))
    &&& g1_wf(g1_msm_value(ps, es))
    &&& v.input@ == hex_of(g1_msm_input(ps, es))
    &&& v.expected@ == hex_of(point_bytes(profile_spec(), g1_msm_value(ps, es), 1))
    &&& v.name is None
}

pub open spec fn is_g1_msm_vector(v: VectorSuccess, k: int) -> bool {
    exists|ps: Seq<Seq<Seq<u8>>>, es: Seq<Seq<u8>>| g1_msm_witness(v, ps, es, k)
}

pub open spec fn g2_msm_witness(
    v: VectorSuccess,
    ps: Seq<Seq<Seq<u8>>>,
    es: Seq<Seq<u8>>,
    k: int,
) -> bool {
    &&& ps.len() == k
    &&& es.len() == k
    &&& k >= 1
    &&& (forall|j: int| 0 <= j < k ==> g2_wf(#[trigger] ps[j]))
    &&& (forall|j: int| 0 <= j < k ==> fr_wf(#[trigger] es[j]))
    &&& g2_wf(g2_msm_value(ps, es))
    &&& v.input@ == hex_of(g2_msm_input(ps, es))
    &&& v.expected@ == hex_of(point_bytes(profile_spec(), g2_msm_value(ps, es), 2))
    &&& v.name is None
}

pub open spec fn is_g2_msm_vector(v: VectorSuccess, k: int) -> bool {
    exists|ps: Seq<Seq<Seq<u8>>>, es: Seq<Seq<u8>>| g2_msm_witness(v, ps, es, k)
}

/// Generates multi-scalar-multiplication vectors, one for each
/// multiplicity from 1 to `n`.
pub fn gen_g1_multiexp_vectors(rng: &mut StdRng, n: usize) -> (r: Result<
    Vec<VectorSuccess>,
    GenError,
>)
    ensures
        n == 0 ==> r is Ok,
        r matches Ok(vs) ==> vs@.len() == n && forall|i: int|
            0 <= i < n ==> is_g1_msm_vector(#[trigger] vs@[i], i + 1),
{
    let mut vectors: Vec<VectorSuccess> = Vec::new();
    for it in 0..n
        invariant
            vectors@.len() == it,
            forall|t: int| 0 <= t < it ==> is_g1_msm_vector(#[trigger] vectors@[t], t + 1),
    {
        let k = it + 1;
        let mut input_bytes: Vec<u8> = Vec::new();
        let mut acc = zero_comps_vec(2, 48);
        let ghost mut gps: Seq<Seq<Seq<u8>>> = Seq::empty();
        let ghost mut ges: Seq<Seq<u8>> = Seq::empty();
        for j in 0..k
            invariant
                it < n,
                gps.len() == j,
                ges.len() == j,
                forall|t: int| 0 <= t < j ==> g1_wf(#[trigger] gps[t]),
                forall|t: int| 0 <= t < j ==> fr_wf(#[trigger] ges[t]),
                g1_wf(comps_view(&acc)),
                comps_view(&acc) == g1_msm_value(gps, ges),
                input_bytes@ == g1_msm_input(gps, ges),
    {
        let a = match g1_rand(rng) {
            Some(c) => c,
            None => { return Err(GenError::Arithmetic) },
        };
        let e = match fr_rand(rng) {
            Some(c) => c,
            None => { return Err(GenError::Arithmetic) },
        };
        let a_bytes = encode_g1(&a);
        extend_bytes(&mut input_bytes, &a_bytes);
        let e_bytes = encode_fr(&e);
        extend_bytes(&mut input_bytes, &e_bytes);
        let product = match g1_scale_point(&a, &e) {
            Ok(c) => c,
            Err(err) => { return Err(err) },
        };
        let next = match g1_add_points(&acc, &product) {
            Ok(c) => c,
            Err(err) => { return Err(err) },
        };
        acc = next;
        proof {
            let ps2 = gps.push(comps_view(&a));
            let es2 = ges.push(e@);
            assert(ps2.drop_last() =~= gps);
            assert(es2.drop_last() =~= ges);
            assert(ps2.last() == comps_view(&a));
            assert(es2.last() == e@);
            gps = ps2;
            ges = es2;
        }
    }
        let expected_bytes = encode_g1(&acc);
        let v = VectorSuccess {
            input: hex_string(&input_bytes),
            expected: hex_string(&expected_bytes),
            name: None,
        };
        proof {
            assert(g1_msm_witness(v, gps, ges, it + 1));
        }
        vectors.push(v);
    }
    Ok(vectors)
}

/// Generates G2 multi-scalar-multiplication vectors, one for each
/// multiplicity from 1 to `n`.
pub fn gen_g2_multiexp_vectors(rng: &mut StdRng, n: usize) -> (r: Result<
    Vec<VectorSuccess>,
    GenError,
>)
    ensures
        n == 0 ==> r is Ok,
        r matches Ok(vs) ==> vs@.len() == n && forall|i: int|
            0 <= i < n ==> is_g2_msm_vector(#[trigger] vs@[i], i + 1),
{
    let mut vectors: Vec<VectorSuccess> = Vec::new();
    for it in 0..n
        invariant
            vectors@.len() == it,
            forall|t: int| 0 <= t < it ==> is_g2_msm_vector(#[trigger] vectors@[t], t + 1),
    {
        let k = it + 1;
        let mut input_bytes: Vec<u8> = Vec::new();
        let mut acc = zero_comps_vec(2, 96);
        let ghost mut gps: Seq<Seq<Seq<u8>>> = Seq::empty();
        let ghost mut ges: Seq<Seq<u8>> = Seq::empty();
        for j in 0..k
            invariant
                it < n,
                gps.len() == j,
                ges.len() == j,
                forall|t: int| 0 <= t < j ==> g2_wf(#[trigger] gps[t]),
                forall|t: int| 0 <= t < j ==> fr_wf(#[trigger] ges[t]),
                g2_wf(comps_view(&acc)),
                comps_view(&acc) == g2_msm_value(gps, ges),
                input_bytes@ == g2_msm_input(gps, ges),
    {
        let a = match g2_rand(rng) {
            Some(c) => c,
            None => { return Err(GenError::Arithmetic) },
        };
        let e = match fr_rand(rng) {
            Some(c) => c,
            None => { return Err(GenError::Arithmetic) },
        };
        let a_bytes = encode_g2(&a);
        extend_bytes(&mut input_bytes, &a_bytes);
        let e_bytes = encode_fr(&e);
        extend_bytes(&mut input_bytes, &e_bytes);
        let product = match g2_scale_point(&a, &e) {
            Ok(c) => c,
            Err(err) => { return Err(err) },
        };
        let next = match g2_add_points(&acc, &product) {
            Ok(c) => c,
            Err(err) => { return Err(err) },
        };
        acc = next;
        proof {
            let ps2 = gps.push(comps_view(&a));
            let es2 = ges.push(e@);
            assert(ps2.drop_last() =~= gps);
            assert(es2.drop_last() =~= ges);
            assert(ps2.last() == comps_view(&a));
            assert(es2.last() == e@);
            gps = ps2;
            ges = es2;
        }
    }
        let expected_bytes = encode_g2(&acc);
        let v = VectorSuccess {
            input: hex_string(&input_bytes),
            expected: hex_string(&expected_bytes),
            name: None,
        };
        proof {
            assert(g2_msm_witness(v, gps, ges, it + 1));
        }
        vectors.push(v);
    }
    Ok(vectors)
}

/// The scalar accumulator of the bilinearity construction: the sum of the
/// products of the scalar pairs, folded left to right from zero.
pub open spec fn pairing_acc(e1s: Seq<Seq<u8>>, e2s: Seq<Seq<u8>>) -> Seq<u8>
    decreases e1s.len(),
{
    if e1s.len() == 0 {
        zero_bytes(32)
    } else {
        fr_add_of(pairing_acc(e1s.drop_last(), e2s.drop_last()), fr_mul_of(e1s.last(), e2s.last()))
    }
}

/// The concatenated encodings of the pairs `(e1_j * g, e2_j * h)`.
pub open spec fn pairing_pairs_bytes(
    gb: Seq<Seq<u8>>,
    hb: Seq<Seq<u8>>,
    e1s: Seq<Seq<u8>>,
    e2s: Seq<Seq<u8>>,
) -> Seq<u8>
    decreases e1s.len(),
{
    if e1s.len() == 0 {
        Seq::empty()
    } else {
        pairing_pairs_bytes(gb, hb, e1s.drop_last(), e2s.drop_last()) + point_bytes(
            profile_spec(),
            g1_scale(gb, e1s.last()),
            1,
        ) + point_bytes(profile_spec(), g2_scale(hb, e2s.last()), 2)
    }
}

/// The fixed degenerate pair (infinity, h): always true, whatever the
/// second operand.
pub open spec fn pairing_inf_g1_witness(v: VectorSuccess, hb: Seq<Seq<u8>>) -> bool {
    &&& g2_wf(hb)
    &&& v.input@ == hex_of(zero_bytes(128) + point_bytes(profile_spec(), hb, 2))
    &&& v.expected@ == hex_of(true_sentinel())
    &&& v.name is None
}

pub open spec fn is_pairing_inf_g1_vector(v: VectorSuccess) -> bool {
    exists|hb: Seq<Seq<u8>>| pairing_inf_g1_witness(v, hb)
}

/// The fixed degenerate pair (g, infinity).
pub open spec fn pairing_inf_g2_witness(v: VectorSuccess, gb: Seq<Seq<u8>>) -> bool {
    &&& g1_wf(gb)
    &&& v.input@ == hex_of(point_bytes(profile_spec(), gb, 1) + zero_bytes(256))
    &&& v.expected@ == hex_of(true_sentinel())
    &&& v.name is None
}

pub open spec fn is_pairing_inf_g2_vector(v: VectorSuccess) -> bool {
    exists|gb: Seq<Seq<u8>>| pairing_inf_g2_witness(v, gb)
}

/// A positive multi-pairing vector of `k` pairs built by bilinearity:
/// `k - 1` pairs `(e1_j * g, e2_j * h)` followed by the closing pair
/// `(-(sum of e1_j * e2_j) * g, h)`, so that the pairing product is the
/// multiplicative identity by construction; the expected output is the
/// 32-byte true sentinel.
pub open spec fn pairing_true_witness(
    v: VectorSuccess,
    gb: Seq<Seq<u8>>,
    hb: Seq<Seq<u8>>,
    e1s: Seq<Seq<u8>>,
    e2s: Seq<Seq<u8>>,
    k: int,
) -> bool {
    &&& g1_wf(gb)
    &&& g2_wf(hb)
    &&& k >= 2
    &&& e1s.len() == k - 1
    &&& e2s.len() == k - 1
    &&& (forall|j: int| 0 <= j < k - 1 ==> fr_wf(#[trigger] e1s[j]))
    &&& (forall|j: int| 0 <= j < k - 1 ==> fr_wf(#[trigger] e2s[j]))
    &&& (forall|j: int| 0 <= j < k - 1 ==> g1_wf(#[trigger] g1_scale(gb, e1s[j])))
    &&& (forall|j: int| 0 <= j < k - 1 ==> g2_wf(#[trigger] g2_scale(hb, e2s[j])))
    &&& g1_wf(g1_scale(gb, fr_neg_of(pairing_acc(e1s, e2s))))
    &&& v.input@ == hex_of(
        pairing_pairs_bytes(gb, hb, e1s, e2s) + point_bytes(
            profile_spec(),
            g1_scale(gb, fr_neg_of(pairing_acc(e1s, e2s))),
            1,
        ) + point_bytes(profile_spec(), hb, 2),
    )
    &&& v.expected@ == hex_of(true_sentinel())
    &&& v.name is None
}

pub open spec fn is_pairing_true_vector(v: VectorSuccess, k: int) -> bool {
    exists|gb: Seq<Seq<u8>>, hb: Seq<Seq<u8>>, e1s: Seq<Seq<u8>>, e2s: Seq<Seq<u8>>|
        pairing_true_witness(v, gb, hb, e1s, e2s, k)
}

/// A negative multi-pairing vector: `k` fully independent random pairs
/// with no algebraic relation; the expected output is the all-zero false
/// sentinel.
pub open spec fn pairing_false_witness(
    v: VectorSuccess,
    gb: Seq<Seq<u8>>,
    hb: Seq<Seq<u8>>,
    e1s: Seq<Seq<u8>>,
    e2s: Seq<Seq<u8>>,
    k: int,
) -> bool {
    &&& g1_wf(gb)
    &&& g2_wf(hb)
    &&& k >= 1
    &&& e1s.len() == k
    &&& e2s.len() == k
    &&& (forall|j: int| 0 <= j < k ==> fr_wf(#[trigger] e1s[j]))
    &&& (forall|j: int| 0 <= j < k ==> fr_wf(#[trigger] e2s[j]))
    &&& (forall|j: int| 0 <= j < k ==> g1_wf(#[trigger] g1_scale(gb, e1s[j])))
    &&& (forall|j: int| 0 <= j < k ==> g2_wf(#[trigger] g2_scale(hb, e2s[j])))
    &&& v.input@ == hex_of(pairing_pairs_bytes(gb, hb, e1s, e2s))
    &&& v.expected@ == hex_of(false_sentinel())
    &&& v.name is None
}

pub open spec fn is_pairing_false_vector(v: VectorSuccess, k: int) -> bool {
    exists|gb: Seq<Seq<u8>>, hb: Seq<Seq<u8>>, e1s: Seq<Seq<u8>>, e2s: Seq<Seq<u8>>|
        pairing_false_witness(v, gb, hb, e1s, e2s, k)
}

/// Generates the multi-pairing vectors: the two fixed degenerate
/// single-pair cases with one operand at infinity (always true), then for
/// each pair count from 2 to `n + 1` one vector built by bilinearity to
/// evaluate to the multiplicative identity, then for each pair count from
/// 1 to `n` one vector of fully independent random pairs whose expected
/// output is the false sentinel.  The falseness of those last vectors is
/// statistical, not absolute: an accidental identity has cryptographically
/// negligible probability.
pub fn gen_pairing_vectors(rng: &mut StdRng, n: usize) -> (r: Result<Vec<VectorSuccess>, GenError>)
    ensures
        r matches Ok(vs) ==> {
            &&& vs@.len() == 2 + 2 * n
            &&& is_pairing_inf_g1_vector(vs@[0])
            &&& is_pairing_inf_g2_vector(vs@[1])
            &&& (forall|t: int| 2 <= t < 2 + n ==> is_pairing_true_vector(#[trigger] vs@[t], t))
            &&& (forall|t: int|
                2 + n <= t < 2 + 2 * n ==> is_pairing_false_vector(#[trigger] vs@[t], t - n - 1))
        },
{
    let gb = match g1_generator() {
        Some(c) => c,
        None => { return Err(GenError::Arithmetic) },
    };
    let hb = match g2_generator() {
        Some(c) => c,
        None => { return Err(GenError::Arithmetic) },
    };
    let mut vectors: Vec<VectorSuccess> = Vec::new();

    let mut in1 = make_zero_bytes(128);
    let h_bytes = encode_g2(&hb);
    extend_bytes(&mut in1, &h_bytes);
    let v1 = VectorSuccess {
        input: hex_string(&in1),
        expected: hex_string(&true_sentinel_bytes()),
        name: None,
    };
    proof {
        assert(pairing_inf_g1_witness(v1, comps_view(&hb)));
    }
    vectors.push(v1);

    let mut in2 = encode_g1(&gb);
    let z2 = make_zero_bytes(256);
    extend_bytes(&mut in2, &z2);
    let v2 = VectorSuccess {
        input: hex_string(&in2),
        expected: hex_string(&true_sentinel_bytes()),
        name: None,
    };
    proof {
        assert(pairing_inf_g2_witness(v2, comps_view(&gb)));
    }
    vectors.push(v2);

    for it in 0..n
        invariant
            g1_wf(comps_view(&gb)),
            g2_wf(comps_view(&hb)),
            vectors@.len() == 2 + it,
            is_pairing_inf_g1_vector(vectors@[0]),
            is_pairing_inf_g2_vector(vectors@[1]),
            forall|t: int| 2 <= t < 2 + it ==> is_pairing_true_vector(#[trigger] vectors@[t], t),
    {
        let pairs = it + 1;
        let mut input_bytes: Vec<u8> = Vec::new();
        let mut acc = make_zero_bytes(32);
        let ghost mut ge1: Seq<Seq<u8>> = Seq::empty();
        let ghost mut ge2: Seq<Seq<u8>> = Seq::empty();
        for j in 0..pairs
            invariant
                g1_wf(comps_view(&gb)),
                g2_wf(comps_view(&hb)),
                ge1.len() == j,
                ge2.len() == j,
                forall|t: int| 0 <= t < j ==> fr_wf(#[trigger] ge1[t]),
                forall|t: int| 0 <= t < j ==> fr_wf(#[trigger] ge2[t]),
                forall|t: int|
                    0 <= t < j ==> g1_wf(#[trigger] g1_scale(comps_view(&gb), ge1[t])),
                forall|t: int|
                    0 <= t < j ==> g2_wf(#[trigger] g2_scale(comps_view(&hb), ge2[t])),
                acc@ == pairing_acc(ge1, ge2),
                acc@.len() == 32,
                input_bytes@ == pairing_pairs_bytes(comps_view(&gb), comps_view(&hb), ge1, ge2),
        {
            let e1 = match fr_rand(rng) {
                Some(c) => c,
                None => { return Err(GenError::Arithmetic) },
            };
            let e2 = match fr_rand(rng) {
                Some(c) => c,
                None => { return Err(GenError::Arithmetic) },
            };
            let a1 = match g1_scale_point(&gb, &e1) {
                Ok(c) => c,
                Err(err) => { return Err(err) },
            };
            let a2 = match g2_scale_point(&hb, &e2) {
                Ok(c) => c,
                Err(err) => { return Err(err) },
            };
            let a1_bytes = encode_g1(&a1);
            extend_bytes(&mut input_bytes, &a1_bytes);
            let a2_bytes = encode_g2(&a2);
            extend_bytes(&mut input_bytes, &a2_bytes);
            let prod = match fr_mul_bytes(&e1, &e2) {
                Some(c) => c,
                None => { return Err(GenError::Arithmetic) },
            };
            let next = match fr_add_bytes(&acc, &prod) {
                Some(c) => c,
                None => { return Err(GenError::Arithmetic) },
            };
            acc = next;
            proof {
                assert(g1_wf(g1_scale(comps_view(&gb), e1@)));
                assert(g2_wf(g2_scale(comps_view(&hb), e2@)));
                let f1 = ge1.push(e1@);
                let f2 = ge2.push(e2@);
                assert(f1.drop_last() =~= ge1);
                assert(f2.drop_last() =~= ge2);
                assert(f1.last() == e1@);
                assert(f2.last() == e2@);
                ge1 = f1;
                ge2 = f2;
            }
        }
        let neg = match fr_neg_bytes(&acc) {
            Some(c) => c,
            None => { return Err(GenError::Arithmetic) },
        };
        let last1 = match g1_scale_point(&gb, &neg) {
            Ok(c) => c,
            Err(err) => { return Err(err) },
        };
        let last1_bytes = encode_g1(&last1);
        extend_bytes(&mut input_bytes, &last1_bytes);
        let h_enc = encode_g2(&hb);
        extend_bytes(&mut input_bytes, &h_enc);
        let v = VectorSuccess {
            input: hex_string(&input_bytes),
            expected: hex_string(&true_sentinel_bytes()),
            name: None,
        };
        proof {
            assert(pairing_true_witness(v, comps_view(&gb), comps_view(&hb), ge1, ge2, it + 2));
        }
        vectors.push(v);
    }

    for it in 0..n
        invariant
            g1_wf(comps_view(&gb)),
            g2_wf(comps_view(&hb)),
            vectors@.len() == 2 + n + it,
            is_pairing_inf_g1_vector(vectors@[0]),
            is_pairing_inf_g2_vector(vectors@[1]),
            forall|t: int| 2 <= t < 2 + n ==> is_pairing_true_vector(#[trigger] vectors@[t], t),
            forall|t: int|
                2 + n <= t < 2 + n + it ==> is_pairing_false_vector(
                    #[trigger] vectors@[t],
                    t - n - 1,
                ),
    {
        let pairs = it + 1;
        let mut input_bytes: Vec<u8> = Vec::new();
        let ghost mut ge1: Seq<Seq<u8>> = Seq::empty();
        let ghost mut ge2: Seq<Seq<u8>> = Seq::empty();
        for j in 0..pairs
            invariant
                g1_wf(comps_view(&gb)),
                g2_wf(comps_view(&hb)),
                ge1.len() == j,
                ge2.len() == j,
                forall|t: int| 0 <= t < j ==> fr_wf(#[trigger] ge1[t]),
                forall|t: int| 0 <= t < j ==> fr_wf(#[trigger] ge2[t]),
                forall|t: int|
                    0 <= t < j ==> g1_wf(#[trigger] g1_scale(comps_view(&gb), ge1[t])),
                forall|t: int|
                    0 <= t < j ==> g2_wf(#[trigger] g2_scale(comps_view(&hb), ge2[t])),
                input_bytes@ == pairing_pairs_bytes(comps_view(&gb), comps_view(&hb), ge1, ge2),
        {
            let e1 = match fr_rand(rng) {
                Some(c) => c,
                None => { return Err(GenError::Arithmetic) },
            };
            let e2 = match fr_rand(rng) {
                Some(c) => c,
                None => { return Err(GenError::Arithmetic) },
            };
            let a1 = match g1_scale_point(&gb, &e1) {
                Ok(c) => c,
                Err(err) => { return Err(err) },
            };
            let a2 = match g2_scale_point(&hb, &e2) {
                Ok(c) => c,
                Err(err) => { return Err(err) },
            };
            let a1_bytes = encode_g1(&a1);
            extend_bytes(&mut input_bytes, &a1_bytes);
            let a2_bytes = encode_g2(&a2);
            extend_bytes(&mut input_bytes, &a2_bytes);
            proof {
                assert(g1_wf(g1_scale(comps_view(&gb), e1@)));
                assert(g2_wf(g2_scale(comps_view(&hb), e2@)));
                let f1 = ge1.push(e1@);
                let f2 = ge2.push(e2@);
                assert(f1.drop_last() =~= ge1);
                assert(f2.drop_last() =~= ge2);
                assert(f1.last() == e1@);
                assert(f2.last() == e2@);
                ge1 = f1;
                ge2 = f2;
            }
        }
        let v = VectorSuccess {
            input: hex_string(&input_bytes),
            expected: hex_string(&false_sentinel_bytes()),
            name: None,
        };
        proof {
            assert(pairing_false_witness(v, comps_view(&gb), comps_view(&hb), ge1, ge2, it + 1));
        }
        vectors.push(v);
    }
    Ok(vectors)
}

/// A scalar-multiplication vector whose scalar is zero records the
/// encoding of the identity, the all-zero infinity sentinel, as its
/// expected output, regardless of the point operand.
pub proof fn lemma_g1_mul_by_zero_yields_infinity(v: VectorSuccess, a: Seq<Seq<u8>>, e: Seq<u8>)
    requires
        g1_mul_witness(v, a, e),
        is_zero_seq(e),
    ensures
        v.expected@ == hex_of(zero_bytes(128)),
{
    assert(g1_scale(a, e) == zero_comps(2, 48));
    assert(comps_wf(zero_comps(2, 48), 2, 1 * profile_spec().fe_size));
    assert(is_zero_comps(zero_comps(2, 48)));
    crate::codec::lemma_zero_point_bytes(profile_spec(), zero_comps(2, 48), 1);
}

/// The G2 counterpart: a zero scalar yields the all-zero G2 infinity
/// encoding.
pub proof fn lemma_g2_mul_by_zero_yields_infinity(v: VectorSuccess, a: Seq<Seq<u8>>, e: Seq<u8>)
    requires
        g2_mul_witness(v, a, e),
        is_zero_seq(e),
    ensures
        v.expected@ == hex_of(zero_bytes(256)),
{
    assert(g2_scale(a, e) == zero_comps(2, 96));
    assert(comps_wf(zero_comps(2, 96), 2, 2 * profile_spec().fe_size));
    assert(is_zero_comps(zero_comps(2, 96)));
    crate::codec::lemma_zero_point_bytes(profile_spec(), zero_comps(2, 96), 2);
}

} // verus!
