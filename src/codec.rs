//! The codec's operations: scalars, vectors, quaternions and boolean arrays
//! to and from their byte layouts.

use vstd::prelude::*;
use crate::bit_pack::{pack, pack_bools, unpack, unpack_bools};
use crate::le_bytes::{
    le32, le64, u32_at, u64_at, push_le32, push_le64, read_le32, read_le64, lemma_le32_inverse,
    lemma_le64_inverse,
};

verus! {

/// A 2-component vector; each component is the IEEE-754 bit pattern of an
/// `f32`.
#[derive(Clone, Copy, Debug, PartialEq, Eq)]
pub struct Vector2Bits {
    pub x: u32,
    pub y: u32,
}

/// A 3-component vector; each component is the IEEE-754 bit pattern of an
/// `f32`.
#[derive(Clone, Copy, Debug, PartialEq, Eq)]
pub struct Vector3Bits {
    pub x: u32,
    pub y: u32,
    pub z: u32,
}

/// A rotation quaternion, imaginary parts `i`, `j`, `k` first and the real
/// part `r` last; each component is the IEEE-754 bit pattern of an `f32`.
/// It is not required to be normalised.
#[derive(Clone, Copy, Debug, PartialEq, Eq)]
pub struct QuatBits {
    pub i: u32,
    pub j: u32,
    pub k: u32,
    pub r: u32,
}

/// The eight bytes of `n` in two's complement, least significant first.
pub open spec fn i64_bytes(n: i64) -> Seq<u8> {
    le64(n as u64)
}

/// The `i64` held in the first eight bytes of `s`.
pub open spec fn i64_from_bytes(s: Seq<u8>) -> i64 {
    u64_at(s, 0) as i64
}

/// The layout of a vector: `x` then `y`.
pub open spec fn vector2_bytes(v: Vector2Bits) -> Seq<u8> {
    le32(v.x) + le32(v.y)
}

/// The vector held in the first eight bytes of `s`.
pub open spec fn vector2_from_bytes(s: Seq<u8>) -> Vector2Bits {
    Vector2Bits { x: u32_at(s, 0), y: u32_at(s, 4) }
}

/// The layout of a vector: `x`, `y`, then `z`.
pub open spec fn vector3_bytes(v: Vector3Bits) -> Seq<u8> {
    le32(v.x) + le32(v.y) + le32(v.z)
}

/// The vector held in the first twelve bytes of `s`.
pub open spec fn vector3_from_bytes(s: Seq<u8>) -> Vector3Bits {
    Vector3Bits { x: u32_at(s, 0), y: u32_at(s, 4), z: u32_at(s, 8) }
}

/// The layout of a quaternion: `i`, `j`, `k`, then `r`.
pub open spec fn quat_bytes(q: QuatBits) -> Seq<u8> {
    le32(q.i) + le32(q.j) + le32(q.k) + le32(q.r)
}

/// The quaternion held in the first sixteen bytes of `s`.
pub open spec fn quat_from_bytes(s: Seq<u8>) -> QuatBits {
    QuatBits { i: u32_at(s, 0), j: u32_at(s, 4), k: u32_at(s, 8), r: u32_at(s, 12) }
}

/// Decoding the bytes of an `i64` gives it back.
pub proof fn lemma_i64_round_trip(n: i64)
    ensures
        i64_bytes(n).len() == 8,
        i64_from_bytes(i64_bytes(n)) == n,
{
    lemma_le64_inverse(n as u64);
    assert(((n as u64) as i64) == n) by (bit_vector);
}

/// Decoding the bytes of a 2-component vector gives back each component.
pub proof fn lemma_vector2_round_trip(v: Vector2Bits)
    ensures
        vector2_bytes(v).len() == 8,
        vector2_from_bytes(vector2_bytes(v)) == v,
{
    let s = vector2_bytes(v);
    lemma_le32_inverse(v.x);
    lemma_le32_inverse(v.y);
    assert(u32_at(s, 0) == u32_at(le32(v.x), 0));
    assert(u32_at(s, 4) == u32_at(le32(v.y), 0));
}

/// Decoding the bytes of a 3-component vector gives back each component.
pub proof fn lemma_vector3_round_trip(v: Vector3Bits)
    ensures
        vector3_bytes(v).len() == 12,
        vector3_from_bytes(vector3_bytes(v)) == v,
{
    let s = vector3_bytes(v);
    lemma_le32_inverse(v.x);
    lemma_le32_inverse(v.y);
    lemma_le32_inverse(v.z);
    assert(u32_at(s, 0) == u32_at(le32(v.x), 0));
    assert(u32_at(s, 4) == u32_at(le32(v.y), 0));
    assert(u32_at(s, 8) == u32_at(le32(v.z), 0));
}

/// Decoding the bytes of a quaternion gives back each component, in the
/// order `i`, `j`, `k`, `r`.
pub proof fn lemma_quat_round_trip(q: QuatBits)
    ensures
        quat_bytes(q).len() == 16,
        quat_from_bytes(quat_bytes(q)) == q,
{
    let s = quat_bytes(q);
    lemma_le32_inverse(q.i);
    lemma_le32_inverse(q.j);
    lemma_le32_inverse(q.k);
    lemma_le32_inverse(q.r);
    assert(u32_at(s, 0) == u32_at(le32(q.i), 0));
    assert(u32_at(s, 4) == u32_at(le32(q.j), 0));
    assert(u32_at(s, 8) == u32_at(le32(q.k), 0));
    assert(u32_at(s, 12) == u32_at(le32(q.r), 0));
}

/// The stateless codec.
pub struct Serde;

impl Serde {
    /// The stateless codec.
    pub fn new() -> (r: Serde) {
        Serde
    }

    /// The eight little-endian two's-complement bytes of `num`.
    pub fn serialize_i64(num: i64) -> (r: Vec<u8>)
        ensures
            r@ == i64_bytes(num),
    {
        let mut out: Vec<u8> = Vec::new();
        push_le64(&mut out, num as u64);
        assert(out@ =~= i64_bytes(num));
        out
    }

    /// The four little-endian bytes of an `f32` given by its bit pattern.
    pub fn serialize_f32(bits: u32) -> (r: Vec<u8>)
        ensures
            r@ == le32(bits),
    {
        let mut out: Vec<u8> = Vec::new();
        push_le32(&mut out, bits);
        assert(out@ =~= le32(bits));
        out
    }

    /// The eight little-endian bytes of an `f64` given by its bit pattern.
    pub fn serialize_f64(bits: u64) -> (r: Vec<u8>)
        ensures
            r@ == le64(bits),
    {
        let mut out: Vec<u8> = Vec::new();
        push_le64(&mut out, bits);
        assert(out@ =~= le64(bits));
        out
    }

    /// The eight bytes of `vec`: `x` then `y`, each four bytes little-endian.
    pub fn serialize_vector2(vec: Vector2Bits) -> (r: Vec<u8>)
        ensures
            r@ == vector2_bytes(vec),
    {
        let mut out: Vec<u8> = Vec::new();
        push_le32(&mut out, vec.x);
        push_le32(&mut out, vec.y);
        assert(out@ =~= vector2_bytes(vec));
        out
    }

    /// The twelve bytes of `vec`: `x`, `y`, `z`, each four bytes
    /// little-endian.
    pub fn serialize_vector3(vec: Vector3Bits) -> (r: Vec<u8>)
        ensures
            r@ == vector3_bytes(vec),
    {
        let mut out: Vec<u8> = Vec::new();
        push_le32(&mut out, vec.x);
        push_le32(&mut out, vec.y);
        push_le32(&mut out, vec.z);
        assert(out@ =~= vector3_bytes(vec));
        out
    }

    /// The sixteen bytes of `quat`: `i`, `j`, `k`, `r`, each four bytes
    /// little-endian.
    pub fn serialize_quat(quat: QuatBits) -> (r: Vec<u8>)
        ensures
            r@ == quat_bytes(quat),
    {
        let mut out: Vec<u8> = Vec::new();
        push_le32(&mut out, quat.i);
        push_le32(&mut out, quat.j);
        push_le32(&mut out, quat.k);
        push_le32(&mut out, quat.r);
        assert(out@ =~= quat_bytes(quat));
        out
    }

    /// `arr` packed eight to a byte, most significant bit first, in
    /// `arr.len() / 8` bytes rounded up; the unused low bits of a partial last
    /// byte are zero.
    pub fn serialize_bool_array(arr: &[bool]) -> (r: Vec<u8>)
        ensures
            r@ == pack_bools(arr@),
            r@.len() == (arr@.len() + 7) / 8,
    {
        pack(arr)
    }

    /// The `i64` held little-endian in the first eight bytes of `bytes`.
    pub fn deserialize_i64(bytes: &[u8]) -> (r: i64)
        requires
            bytes@.len() >= 8,
        ensures
            r == i64_from_bytes(bytes@),
    {
        read_le64(bytes, 0) as i64
    }

    /// The bit pattern of the `f32` held little-endian in the first four bytes
    /// of `bytes`.
    pub fn deserialize_f32(bytes: &[u8]) -> (r: u32)
        requires
            bytes@.len() >= 4,
        ensures
            r == u32_at(bytes@, 0),
    {
        read_le32(bytes, 0)
    }

    /// The bit pattern of the `f64` held little-endian in the first eight
    /// bytes of `bytes`.
    pub fn deserialize_f64(bytes: &[u8]) -> (r: u64)
        requires
            bytes@.len() >= 8,
        ensures
            r == u64_at(bytes@, 0),
    {
        read_le64(bytes, 0)
    }

    /// The vector held in the first eight bytes of `bytes`.
    pub fn deserialize_vector2(bytes: &[u8]) -> (r: Vector2Bits)
        requires
            bytes@.len() >= 8,
        ensures
            r == vector2_from_bytes(bytes@),
    {
        Vector2Bits { x: read_le32(bytes, 0), y: read_le32(bytes, 4) }
    }

    /// The vector held in the first twelve bytes of `bytes`.
    pub fn deserialize_vector3(bytes: &[u8]) -> (r: Vector3Bits)
        requires
            bytes@.len() >= 12,
        ensures
            r == vector3_from_bytes(bytes@),
    {
        Vector3Bits { x: read_le32(bytes, 0), y: read_le32(bytes, 4), z: read_le32(bytes, 8) }
    }

    /// The quaternion held in the first sixteen bytes of `bytes`, in the
    /// order `i`, `j`, `k`, `r`.
    pub fn deserialize_quat(bytes: &[u8]) -> (r: QuatBits)
        requires
            bytes@.len() >= 16,
        ensures
            r == quat_from_bytes(bytes@),
    {
        QuatBits {
            i: read_le32(bytes, 0),
            j: read_le32(bytes, 4),
            k: read_le32(bytes, 8),
            r: read_le32(bytes, 12),
        }
    }

    /// The first `expected_size` booleans packed in `bytes`: element `k` is
    /// bit `k % 8` (most significant first) of byte `k / 8`. Bits past
    /// `expected_size` and bytes past those needed are ignored.
    pub fn deserialize_bool_array(bytes: &[u8], expected_size: usize) -> (r: Vec<bool>)
        requires
            expected_size <= 8 * bytes@.len(),
        ensures
            r@ == unpack_bools(bytes@, expected_size as nat),
            r@.len() == expected_size,
    {
        unpack(bytes, expected_size)
    }
}

} // verus!
