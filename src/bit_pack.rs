//! Packing of boolean sequences into bytes, eight per byte, most significant
//! bit first.

use vstd::prelude::*;

verus! {

/// Bit `j` of `b`, counting from the most significant bit (`j == 0` has
/// weight 128, `j == 7` has weight 1).
pub open spec fn bit_of(b: u8, j: int) -> bool {
    (b >> ((7 - j) as u8)) & 1u8 == 1u8
}

/// `w` where `c` holds, zero elsewhere.
pub open spec fn flag(c: bool, w: u8) -> u8 {
    if c {
        w
    } else {
        0
    }
}

/// The byte that holds `c[0]` in its most significant bit down to `c[7]`
/// in its least significant bit.
pub open spec fn byte_of(c: Seq<bool>) -> u8 {
    flag(c[0], 0x80) | flag(c[1], 0x40) | flag(c[2], 0x20) | flag(c[3], 0x10) | flag(c[4], 0x08)
        | flag(c[5], 0x04) | flag(c[6], 0x02) | flag(c[7], 0x01)
}

/// Element `k` of `s`, or `false` past its end.
pub open spec fn elem(s: Seq<bool>, k: int) -> bool {
    0 <= k < s.len() && s[k]
}

/// The eight elements of `s` from `start` on, padded with `false`.
pub open spec fn chunk(s: Seq<bool>, start: int) -> Seq<bool> {
    Seq::new(8, |j: int| elem(s, start + j))
}

/// The number of bytes that hold `n` packed booleans: `n / 8` rounded up.
pub open spec fn packed_len(n: nat) -> nat {
    (n + 7) / 8
}

/// The packed form of `s`: byte `i` holds elements `8 * i .. 8 * i + 8`,
/// and the unused low bits of a partial last byte are zero.
pub open spec fn pack_bools(s: Seq<bool>) -> Seq<u8> {
    Seq::new(packed_len(s.len()), |i: int| byte_of(chunk(s, 8 * i)))
}

/// The first `n` booleans held in `bytes`: element `k` is bit `k % 8` of
/// byte `k / 8`.
pub open spec fn unpack_bools(bytes: Seq<u8>, n: nat) -> Seq<bool> {
    Seq::new(n, |k: int| bit_of(bytes[k / 8], k % 8))
}

proof fn lemma_flag_bits(c0: bool, c1: bool, c2: bool, c3: bool, c4: bool, c5: bool, c6: bool, c7: bool)
    by (bit_vector)
    ensures
        ({
            let b = flag(c0, 0x80) | flag(c1, 0x40) | flag(c2, 0x20) | flag(c3, 0x10) | flag(c4, 0x08)
                | flag(c5, 0x04) | flag(c6, 0x02) | flag(c7, 0x01);
            &&& ((b >> 7u8) & 1u8 == 1u8) == c0
            &&& ((b >> 6u8) & 1u8 == 1u8) == c1
            &&& ((b >> 5u8) & 1u8 == 1u8) == c2
            &&& ((b >> 4u8) & 1u8 == 1u8) == c3
            &&& ((b >> 3u8) & 1u8 == 1u8) == c4
            &&& ((b >> 2u8) & 1u8 == 1u8) == c5
            &&& ((b >> 1u8) & 1u8 == 1u8) == c6
            &&& ((b >> 0u8) & 1u8 == 1u8) == c7
        }),
{
}

/// Bit `j` of the byte built from `c` is `c[j]`.
pub proof fn lemma_bit_of_byte(c: Seq<bool>, j: int)
    requires
        c.len() == 8,
        0 <= j < 8,
    ensures
        bit_of(byte_of(c), j) == c[j],
{
    lemma_flag_bits(c[0], c[1], c[2], c[3], c[4], c[5], c[6], c[7]);
}

/// Unpacking the packed form of `s` with its own length gives `s` back; the
/// packed form holds enough bytes for that length.
pub proof fn lemma_bools_round_trip(s: Seq<bool>)
    ensures
        s.len() <= 8 * pack_bools(s).len(),
        unpack_bools(pack_bools(s), s.len()) == s,
{
    let p = pack_bools(s);
    assert forall|k: int| 0 <= k < s.len() implies #[trigger] unpack_bools(p, s.len())[k] == s[k] by {
        let i = k / 8;
        let j = k % 8;
        assert(0 <= i < packed_len(s.len()));
        lemma_bit_of_byte(chunk(s, 8 * i), j);
        assert(8 * i + j == k);
    }
    assert(unpack_bools(p, s.len()) =~= s);
}

/// The bits of `num`, most significant first.
pub fn u8_to_bools(num: u8) -> (r: [bool; 8])
    ensures
        forall|j: int| 0 <= j < 8 ==> #[trigger] r@[j] == bit_of(num, j),
{
    [
        (num >> 7u8) & 1u8 == 1u8,
        (num >> 6u8) & 1u8 == 1u8,
        (num >> 5u8) & 1u8 == 1u8,
        (num >> 4u8) & 1u8 == 1u8,
        (num >> 3u8) & 1u8 == 1u8,
        (num >> 2u8) & 1u8 == 1u8,
        (num >> 1u8) & 1u8 == 1u8,
        (num >> 0u8) & 1u8 == 1u8,
    ]
}

/// The byte with `bools[0]` in its most significant bit down to `bools[7]`
/// in its least significant bit.
pub fn bools_to_u8(bools: [bool; 8]) -> (r: u8)
    ensures
        r == byte_of(bools@),
{
    (if bools[0] { 0x80u8 } else { 0 }) | (if bools[1] { 0x40u8 } else { 0 }) | (if bools[2] {
        0x20u8
    } else {
        0
    }) | (if bools[3] { 0x10u8 } else { 0 }) | (if bools[4] { 0x08u8 } else { 0 }) | (if bools[5] {
        0x04u8
    } else {
        0
    }) | (if bools[6] { 0x02u8 } else { 0 }) | (if bools[7] { 0x01u8 } else { 0 })
}

/// Element `start + j` of `arr`, or `false` past its end.
fn elem_at(arr: &[bool], start: usize, j: usize) -> (r: bool)
    requires
        start <= arr@.len(),
    ensures
        r == elem(arr@, start + j),
{
    j < arr.len() - start && arr[start + j]
}

/// The eight elements of `arr` from `start` on, padded with `false`.
fn chunk_at(arr: &[bool], start: usize) -> (r: [bool; 8])
    requires
        start <= arr@.len(),
    ensures
        r@ == chunk(arr@, start as int),
{
    let r = [
        elem_at(arr, start, 0),
        elem_at(arr, start, 1),
        elem_at(arr, start, 2),
        elem_at(arr, start, 3),
        elem_at(arr, start, 4),
        elem_at(arr, start, 5),
        elem_at(arr, start, 6),
        elem_at(arr, start, 7),
    ];
    assert(r@ =~= chunk(arr@, start as int));
    r
}

/// Packs `arr` eight to a byte, most significant bit first; a partial last
/// byte keeps its unused low bits zero.
pub fn pack(arr: &[bool]) -> (r: Vec<u8>)
    ensures
        r@ == pack_bools(arr@),
{
    let size = arr.len();
    let iterations = size / 8;
    let extra: usize = if size % 8 != 0 { 1 } else { 0 };
    let n_bytes = iterations + extra;
    assert(n_bytes == packed_len(size as nat));
    let mut out: Vec<u8> = Vec::new();
    for i in 0..n_bytes
        invariant
            n_bytes == packed_len(arr@.len()),
            size == arr@.len(),
            out@ =~= pack_bools(arr@).take(i as int),
    {
        assert(8 * i < size);
        let b = bools_to_u8(chunk_at(arr, i * 8));
        out.push(b);
    }
    assert(out@ =~= pack_bools(arr@));
    out
}

/// The first `expected_size` booleans packed in `bytes`, most significant
/// bit first; bits past `expected_size` are not read.
pub fn unpack(bytes: &[u8], expected_size: usize) -> (r: Vec<bool>)
    requires
        expected_size <= 8 * bytes@.len(),
    ensures
        r@ == unpack_bools(bytes@, expected_size as nat),
{
    let mut out: Vec<bool> = Vec::new();
    let mut remaining = expected_size;
    let mut i: usize = 0;
    while remaining > 0
        invariant
            expected_size <= 8 * bytes@.len(),
            out@.len() + remaining == expected_size,
            remaining > 0 ==> out@.len() == 8 * i,
            out@ =~= unpack_bools(bytes@, out@.len()),
        decreases remaining,
    {
        let bools = u8_to_bools(bytes[i]);
        let take = if remaining < 8 { remaining } else { 8 };
        for j in 0..take
            invariant
                i < bytes@.len(),
                take <= 8,
                out@.len() == 8 * i + j,
                forall|t: int| 0 <= t < 8 ==> #[trigger] bools@[t] == bit_of(bytes@[i as int], t),
                out@ =~= unpack_bools(bytes@, out@.len()),
        {
            assert((8 * i + j) / 8 == i && (8 * i + j) % 8 == j);
            out.push(bools[j]);
        }
        remaining = remaining - take;
        i = i + 1;
    }
    out
}

} // verus!
