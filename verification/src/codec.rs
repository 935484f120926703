//! Fixed-width big-endian byte encodings of field elements, points and
//! scalars, and the hexadecimal rendering of finished byte strings.
//!
//! The external arithmetic library hands out the canonical serialization of
//! a field element as little-endian bytes; every encoder here reverses those
//! bytes and left-pads the result with zeros to the width the profile
//! prescribes.

use vstd::prelude::*;

use crate::profile::CurveProfile;

verus! {

/// `n` zero bytes.
pub open spec fn zero_bytes(n: nat) -> Seq<u8> {
    Seq::new(n, |i: int| 0u8)
}

/// `s` reversed.
pub open spec fn rev_bytes(s: Seq<u8>) -> Seq<u8> {
    Seq::new(s.len(), |i: int| s[s.len() - 1 - i])
}

/// The coordinate components of a point, seen as mathematical sequences.
pub open spec fn comps_view(v: &Vec<Vec<u8>>) -> Seq<Seq<u8>> {
    Seq::new(v@.len(), |i: int| v@[i]@)
}

/// Well-formed point components: `n` components of `fe` bytes each.
pub open spec fn comps_wf(c: Seq<Seq<u8>>, n: int, fe: int) -> bool {
    &&& c.len() == n
    &&& forall|i: int| 0 <= i < c.len() ==> (#[trigger] c[i]).len() == fe
}

/// One field-element word: leading pad of zeros, then the element's
/// canonical bytes in big-endian order.
pub open spec fn fe_word(p: CurveProfile, le: Seq<u8>) -> Seq<u8> {
    zero_bytes((p.word_size - p.fe_size) as nat) + rev_bytes(le)
}

/// The words of one coordinate: the coordinate's `parts` serialized field
/// elements, each reversed and padded to its own word, in serialization
/// order.
pub open spec fn coord_words(p: CurveProfile, co: Seq<u8>, parts: nat) -> Seq<u8>
    decreases parts,
{
    if parts == 0 {
        Seq::empty()
    } else {
        coord_words(p, co, (parts - 1) as nat) + fe_word(
            p,
            co.subrange((parts - 1) * p.fe_size, parts * p.fe_size),
        )
    }
}

/// A point encoding: the words of each coordinate, concatenated in the
/// order the coordinates are given.
pub open spec fn point_bytes(p: CurveProfile, comps: Seq<Seq<u8>>, parts: nat) -> Seq<u8>
    decreases comps.len(),
{
    if comps.len() == 0 {
        Seq::empty()
    } else {
        point_bytes(p, comps.drop_last(), parts) + coord_words(p, comps.last(), parts)
    }
}

/// A scalar encoding: leading pad of zeros to the scalar word, then the
/// scalar's canonical bytes in big-endian order.
pub open spec fn scalar_word(p: CurveProfile, le: Seq<u8>) -> Seq<u8> {
    zero_bytes((p.scalar_word_size - p.scalar_size) as nat) + rev_bytes(le)
}

/// Every generated field-element encoding is exactly one word long and its
/// leading `word_size - fe_size` bytes are zero.
pub proof fn lemma_fe_word_padding(p: CurveProfile, le: Seq<u8>)
    requires
        p.wf(),
        le.len() == p.fe_size,
    ensures
        fe_word(p, le).len() == p.word_size,
        forall|i: int| 0 <= i < p.word_size - p.fe_size ==> fe_word(p, le)[i] == 0u8,
{
}

/// The length of the words of one long-enough coordinate.
pub proof fn lemma_coord_words_len(p: CurveProfile, co: Seq<u8>, parts: nat)
    requires
        p.wf(),
        parts <= 4,
        parts * p.fe_size <= co.len(),
    ensures
        coord_words(p, co, parts).len() == parts * p.word_size,
    decreases parts,
{
    if parts > 0 {
        let prev = (parts - 1) as nat;
        assert(prev * p.fe_size >= 0 && prev * p.fe_size + p.fe_size == parts * p.fe_size
            && prev * p.fe_size <= co.len()) by (nonlinear_arith)
            requires
                parts >= 1,
                p.fe_size >= 1,
                parts * p.fe_size <= co.len(),
                prev == parts - 1,
        ;
        lemma_coord_words_len(p, co, prev);
        assert(co.subrange(prev * p.fe_size, parts * p.fe_size).len() == p.fe_size);
        assert(prev * p.word_size + p.word_size == parts * p.word_size) by (nonlinear_arith)
            requires
                parts >= 1,
                prev == parts - 1,
        ;
        assert(coord_words(p, co, parts).len() == parts * p.word_size);
    } else {
        assert(parts * p.word_size == 0) by (nonlinear_arith)
            requires
                parts == 0,
        ;
    }
}

/// The length of a well-formed point encoding.
pub proof fn lemma_point_bytes_len(p: CurveProfile, comps: Seq<Seq<u8>>, parts: nat)
    requires
        p.wf(),
        parts <= 4,
        forall|i: int| 0 <= i < comps.len() ==> (#[trigger] comps[i]).len() == parts * p.fe_size,
    ensures
        point_bytes(p, comps, parts).len() == comps.len() * (parts * p.word_size),
    decreases comps.len(),
{
    if comps.len() > 0 {
        lemma_point_bytes_len(p, comps.drop_last(), parts);
        lemma_coord_words_len(p, comps.last(), parts);
        assert((comps.len() - 1) * (parts * p.word_size) + parts * p.word_size == comps.len() * (
        parts * p.word_size)) by (nonlinear_arith);
    }
}

/// The words of an all-zero coordinate are all zero.
pub proof fn lemma_coord_words_zero(p: CurveProfile, co: Seq<u8>, parts: nat)
    requires
        p.wf(),
        parts <= 4,
        parts * p.fe_size <= co.len(),
        is_zero_seq(co),
    ensures
        is_zero_seq(coord_words(p, co, parts)),
    decreases parts,
{
    if parts > 0 {
        let prev = (parts - 1) as nat;
        assert(prev * p.fe_size >= 0 && prev * p.fe_size + p.fe_size == parts * p.fe_size
            && prev * p.fe_size <= co.len()) by (nonlinear_arith)
            requires
                parts >= 1,
                p.fe_size >= 1,
                parts * p.fe_size <= co.len(),
                prev == parts - 1,
        ;
        lemma_coord_words_zero(p, co, prev);
        let chunk = co.subrange(prev * p.fe_size, parts * p.fe_size);
        assert(is_zero_seq(chunk));
        assert(is_zero_seq(fe_word(p, chunk)));
        assert(is_zero_seq(coord_words(p, co, parts)));
    }
}

/// The encoding of the all-zero coordinate pair is the all-zero infinity
/// sentinel of the group's full encoded size.
pub proof fn lemma_zero_point_bytes(p: CurveProfile, c: Seq<Seq<u8>>, parts: nat)
    requires
        p.wf(),
        1 <= parts <= 4,
        comps_wf(c, 2, parts * p.fe_size),
        is_zero_comps(c),
    ensures
        point_bytes(p, c, parts) == zero_bytes((2 * (parts * p.word_size)) as nat),
{
    assert forall|i: int| 0 <= i < c.len() implies (#[trigger] c[i]).len() == parts
        * p.fe_size by {}
    lemma_point_bytes_len(p, c, parts);
    lemma_zero_point_bytes_rec(p, c, parts);
    assert(point_bytes(p, c, parts) =~= zero_bytes((2 * (parts * p.word_size)) as nat));
}

proof fn lemma_zero_point_bytes_rec(p: CurveProfile, c: Seq<Seq<u8>>, parts: nat)
    requires
        p.wf(),
        1 <= parts <= 4,
        forall|i: int| 0 <= i < c.len() ==> (#[trigger] c[i]).len() == parts * p.fe_size,
        is_zero_comps(c),
    ensures
        is_zero_seq(point_bytes(p, c, parts)),
    decreases c.len(),
{
    if c.len() > 0 {
        assert(is_zero_comps(c.drop_last()));
        lemma_zero_point_bytes_rec(p, c.drop_last(), parts);
        lemma_coord_words_zero(p, c.last(), parts);
        assert(is_zero_seq(point_bytes(p, c, parts)));
    }
}

/// Appends `src` to `dst`.
pub fn extend_bytes(dst: &mut Vec<u8>, src: &Vec<u8>)
    ensures
        final(dst)@ == old(dst)@ + src@,
{
    let n = src.len();
    for i in 0..n
        invariant
            n == src@.len(),
            dst@ == old(dst)@ + src@.subrange(0, i as int),
    {
        dst.push(src[i]);
        assert(dst@ =~= old(dst)@ + src@.subrange(0, i + 1));
    }
    assert(dst@ =~= old(dst)@ + src@);
}

/// `n` zero bytes.
pub fn make_zero_bytes(n: usize) -> (r: Vec<u8>)
    ensures
        r@ == zero_bytes(n as nat),
{
    let mut out: Vec<u8> = Vec::new();
    for i in 0..n
        invariant
            out@.len() == i,
            forall|j: int| 0 <= j < i ==> out@[j] == 0u8,
    {
        out.push(0u8);
    }
    assert(out@ =~= zero_bytes(n as nat));
    out
}

/// `n` bytes of the given fill value.
pub fn make_filled_bytes(n: usize, fill: u8) -> (r: Vec<u8>)
    ensures
        r@ == Seq::new(n as nat, |i: int| fill),
{
    let mut out: Vec<u8> = Vec::new();
    for i in 0..n
        invariant
            out@.len() == i,
            forall|j: int| 0 <= j < i ==> out@[j] == fill,
    {
        out.push(fill);
    }
    assert(out@ =~= Seq::new(n as nat, |i: int| fill));
    out
}

/// Encodes one field element, given as its canonical little-endian bytes,
/// into a zero-padded big-endian word of the profile.
pub fn encode_fe_word(p: &CurveProfile, le: &Vec<u8>) -> (r: Vec<u8>)
    requires
        p.wf(),
        le@.len() == p.fe_size,
    ensures
        r@ == fe_word(*p, le@),
        r@.len() == p.word_size,
{
    let pad = p.word_size - p.fe_size;
    let mut out = make_zero_bytes(pad);
    let n = le.len();
    for i in 0..n
        invariant
            n == le@.len(),
            le@.len() == p.fe_size,
            p.wf(),
            pad == p.word_size - p.fe_size,
            out@.len() == pad + i,
            forall|j: int| 0 <= j < pad ==> #[trigger] out@[j] == 0u8,
            forall|j: int| pad <= j < pad + i ==> #[trigger] out@[j] == le@[n - 1 - (j - pad)],
    {
        out.push(le[n - 1 - i]);
    }
    assert(out@ =~= fe_word(*p, le@));
    out
}

/// The bytes of `v` from `start` on, `len` of them.
pub fn subvec(v: &Vec<u8>, start: usize, len: usize) -> (r: Vec<u8>)
    requires
        start + len <= v@.len(),
    ensures
        r@ == v@.subrange(start as int, start as int + len as int),
{
    let total = v.len();
    let mut out: Vec<u8> = Vec::new();
    for i in 0..len
        invariant
            total == v@.len(),
            start + len <= total,
            out@ == v@.subrange(start as int, start as int + i as int),
    {
        out.push(v[start + i]);
        assert(out@ =~= v@.subrange(start as int, start as int + i + 1));
    }
    out
}

/// Encodes one coordinate: each of its `parts` serialized field elements
/// becomes one zero-padded big-endian word.
pub fn encode_coord(p: &CurveProfile, co: &Vec<u8>, parts: usize) -> (r: Vec<u8>)
    requires
        p.wf(),
        1 <= parts <= 4,
        co@.len() == parts * p.fe_size,
    ensures
        r@ == coord_words(*p, co@, parts as nat),
        r@.len() == parts * p.word_size,
{
    let mut out: Vec<u8> = Vec::new();
    for k in 0..parts
        invariant
            p.wf(),
            1 <= parts <= 4,
            co@.len() == parts * p.fe_size,
            out@ == coord_words(*p, co@, k as nat),
            out@.len() == k * p.word_size,
    {
        proof {
            assert(k * p.fe_size >= 0 && k * p.fe_size + p.fe_size == (k + 1) * p.fe_size && (k
                + 1) * p.fe_size <= parts * p.fe_size && parts * p.fe_size <= 4 * 4096)
                by (nonlinear_arith)
                requires
                    0 <= k < parts,
                    parts <= 4,
                    1 <= p.fe_size <= 4096,
            ;
        }
        let chunk = subvec(co, k * p.fe_size, p.fe_size);
        let word = encode_fe_word(p, &chunk);
        extend_bytes(&mut out, &word);
        proof {
            assert(k * p.word_size + p.word_size == (k + 1) * p.word_size) by (nonlinear_arith);
        }
    }
    out
}

/// Encodes a point: the words of each coordinate, concatenated in the
/// order the coordinates are given.
pub fn encode_point(p: &CurveProfile, comps: &Vec<Vec<u8>>, parts: usize) -> (r: Vec<u8>)
    requires
        p.wf(),
        1 <= parts <= 4,
        forall|i: int| 0 <= i < comps@.len() ==> (#[trigger] comps@[i])@.len() == parts
            * p.fe_size,
    ensures
        r@ == point_bytes(*p, comps_view(comps), parts as nat),
        r@.len() == comps@.len() * (parts * p.word_size),
{
    let mut out: Vec<u8> = Vec::new();
    let n = comps.len();
    for i in 0..n
        invariant
            n == comps@.len(),
            p.wf(),
            1 <= parts <= 4,
            forall|k: int| 0 <= k < comps@.len() ==> (#[trigger] comps@[k])@.len() == parts
                * p.fe_size,
            out@ == point_bytes(*p, comps_view(comps).take(i as int), parts as nat),
            out@.len() == i * (parts * p.word_size),
    {
        let words = encode_coord(p, &comps[i], parts);
        extend_bytes(&mut out, &words);
        proof {
            let cv = comps_view(comps);
            assert(cv.take(i + 1).drop_last() =~= cv.take(i as int));
            assert(cv.take(i + 1).last() == cv[i as int]);
            assert(i * (parts * p.word_size) + parts * p.word_size == (i + 1) * (parts
                * p.word_size)) by (nonlinear_arith);
        }
    }
    proof {
        assert(comps_view(comps).take(n as int) =~= comps_view(comps));
    }
    out
}

/// Encodes a scalar, given as its canonical little-endian bytes, into a
/// zero-padded big-endian scalar word of the profile.
pub fn encode_scalar_word(p: &CurveProfile, le: &Vec<u8>) -> (r: Vec<u8>)
    requires
        p.wf(),
        le@.len() == p.scalar_size,
    ensures
        r@ == scalar_word(*p, le@),
        r@.len() == p.scalar_word_size,
{
    let pad = p.scalar_word_size - p.scalar_size;
    let mut out = make_zero_bytes(pad);
    let n = le.len();
    for i in 0..n
        invariant
            n == le@.len(),
            le@.len() == p.scalar_size,
            p.wf(),
            pad == p.scalar_word_size - p.scalar_size,
            out@.len() == pad + i,
            forall|j: int| 0 <= j < pad ==> #[trigger] out@[j] == 0u8,
            forall|j: int| pad <= j < pad + i ==> #[trigger] out@[j] == le@[n - 1 - (j - pad)],
    {
        out.push(le[n - 1 - i]);
    }
    assert(out@ =~= scalar_word(*p, le@));
    out
}

/// The all-zero sentinel that encodes the point at infinity of a group
/// whose full encoded size is `n` bytes.
pub fn encode_infinity(n: usize) -> (r: Vec<u8>)
    ensures
        r@ == zero_bytes(n as nat),
{
    make_zero_bytes(n)
}

/// All bytes of `s` are zero.
pub open spec fn is_zero_seq(s: Seq<u8>) -> bool {
    forall|i: int| 0 <= i < s.len() ==> s[i] == 0u8
}

/// All components consist of zero bytes: the coordinate form of the
/// point-at-infinity sentinel.
pub open spec fn is_zero_comps(c: Seq<Seq<u8>>) -> bool {
    forall|i: int| 0 <= i < c.len() ==> is_zero_seq(#[trigger] c[i])
}

/// `n` components of `fe` zero bytes each.
pub open spec fn zero_comps(n: nat, fe: nat) -> Seq<Seq<u8>> {
    Seq::new(n, |i: int| zero_bytes(fe))
}

pub fn bytes_all_zero(v: &Vec<u8>) -> (r: bool)
    ensures
        r == is_zero_seq(v@),
{
    let n = v.len();
    for i in 0..n
        invariant
            n == v@.len(),
            forall|j: int| 0 <= j < i ==> v@[j] == 0u8,
    {
        if v[i] != 0u8 {
            return false;
        }
    }
    true
}

pub fn comps_all_zero(c: &Vec<Vec<u8>>) -> (r: bool)
    ensures
        r == is_zero_comps(comps_view(c)),
{
    let n = c.len();
    for i in 0..n
        invariant
            n == c@.len(),
            forall|j: int| 0 <= j < i ==> is_zero_seq((#[trigger] c@[j])@),
    {
        if !bytes_all_zero(&c[i]) {
            proof {
                assert(comps_view(c)[i as int] == c@[i as int]@);
            }
            return false;
        }
    }
    assert(forall|j: int| 0 <= j < c@.len() ==> #[trigger] comps_view(c)[j] == c@[j]@);
    true
}

/// `n` components of `fe` zero bytes each: the coordinates of the point at
/// infinity.
pub fn zero_comps_vec(n: usize, fe: usize) -> (r: Vec<Vec<u8>>)
    ensures
        comps_view(&r) == zero_comps(n as nat, fe as nat),
        comps_wf(comps_view(&r), n as int, fe as int),
        is_zero_comps(comps_view(&r)),
{
    let mut out: Vec<Vec<u8>> = Vec::new();
    for i in 0..n
        invariant
            out@.len() == i,
            forall|j: int| 0 <= j < i ==> (#[trigger] out@[j])@ == zero_bytes(fe as nat),
    {
        let z = make_zero_bytes(fe);
        out.push(z);
    }
    assert(comps_view(&out) =~= zero_comps(n as nat, fe as nat));
    out
}

/// A fresh copy of a byte vector.
pub fn copy_bytes(v: &Vec<u8>) -> (r: Vec<u8>)
    ensures
        r@ == v@,
{
    let n = v.len();
    let mut out: Vec<u8> = Vec::new();
    for i in 0..n
        invariant
            n == v@.len(),
            out@ == v@.subrange(0, i as int),
    {
        out.push(v[i]);
        assert(out@ =~= v@.subrange(0, i + 1));
    }
    assert(out@ =~= v@);
    out
}

/// A fresh copy of a point's coordinate components.
pub fn copy_comps(c: &Vec<Vec<u8>>) -> (r: Vec<Vec<u8>>)
    ensures
        comps_view(&r) == comps_view(c),
{
    let n = c.len();
    let mut out: Vec<Vec<u8>> = Vec::new();
    for i in 0..n
        invariant
            n == c@.len(),
            out@.len() == i,
            forall|j: int| 0 <= j < i ==> (#[trigger] out@[j])@ == c@[j]@,
    {
        let piece = copy_bytes(&c[i]);
        out.push(piece);
    }
    assert(comps_view(&out) =~= comps_view(c));
    out
}

/// One lowercase hexadecimal digit.
pub open spec fn hex_digit(n: u8) -> char {
    if n == 0 {
        '0'
    } else if n == 1 {
        '1'
    } else if n == 2 {
        '2'
    } else if n == 3 {
        '3'
    } else if n == 4 {
        '4'
    } else if n == 5 {
        '5'
    } else if n == 6 {
        '6'
    } else if n == 7 {
        '7'
    } else if n == 8 {
        '8'
    } else if n == 9 {
        '9'
    } else if n == 10 {
        'a'
    } else if n == 11 {
        'b'
    } else if n == 12 {
        'c'
    } else if n == 13 {
        'd'
    } else if n == 14 {
        'e'
    } else {
        'f'
    }
}

/// Lowercase hexadecimal rendering of a byte string, two digits per byte,
/// high nibble first.
pub open spec fn hex_of(b: Seq<u8>) -> Seq<char> {
    Seq::new(2 * b.len(), |i: int| if i % 2 == 0 {
        hex_digit(b[i / 2] / 16)
    } else {
        hex_digit(b[i / 2] % 16)
    })
}

/// Relies on `hex::encode`: each byte becomes two lowercase hexadecimal
/// digits, high nibble first.
#[verifier::external_body]
pub fn hex_string(b: &Vec<u8>) -> (r: String)
    ensures
        r@ == hex_of(b@),
{
    hex::encode(b)
}

} // verus!
