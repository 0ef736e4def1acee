//! Scalar bit-level helpers shared by the vector types: packing narrow lanes
//! into wider ones, splitting wide lanes into narrow ones, the lane-selection
//! patterns used by blend and permute, and the lemmas about all of these.
//!
//! Lane order is little-endian throughout: the lane with the lowest index
//! occupies the lowest-order bits of the wider lane it is packed into.

use vstd::prelude::*;

verus! {

// ---------------------------------------------------------------------------
// Packing and splitting of lanes, scalar level.
// ---------------------------------------------------------------------------

/// The 32-bit lane whose low half is `lo` and whose high half is `hi`.
pub open spec fn i32_from_i16_pair(lo: i16, hi: i16) -> i32 {
    ((((lo as u16) as u32) | (((hi as u16) as u32) << 16)) as i32)
}

/// The low 16 bits of a 32-bit lane.
pub open spec fn i16_lo_of_i32(x: i32) -> i16 {
    (x as i16)
}

/// The high 16 bits of a 32-bit lane.
pub open spec fn i16_hi_of_i32(x: i32) -> i16 {
    ((((x as u32) >> 16) as u16) as i16)
}

/// The 64-bit lane whose low half is `lo` and whose high half is `hi`.
pub open spec fn i64_from_i32_pair(lo: i32, hi: i32) -> i64 {
    ((((lo as u32) as u64) | (((hi as u32) as u64) << 32)) as i64)
}

/// The low 32 bits of a 64-bit lane.
pub open spec fn i32_lo_of_i64(x: i64) -> i32 {
    (x as i32)
}

/// The high 32 bits of a 64-bit lane.
pub open spec fn i32_hi_of_i64(x: i64) -> i32 {
    ((((x as u64) >> 32) as u32) as i32)
}

/// The unsigned 64-bit lane whose low half is `lo` and whose high half is `hi`.
pub open spec fn u64_from_u32_pair(lo: u32, hi: u32) -> u64 {
    (lo as u64) | ((hi as u64) << 32)
}

/// The low 32 bits of an unsigned 64-bit lane.
pub open spec fn u32_lo_of_u64(x: u64) -> u32 {
    (x as u32)
}

/// The high 32 bits of an unsigned 64-bit lane.
pub open spec fn u32_hi_of_u64(x: u64) -> u32 {
    ((x >> 32) as u32)
}

/// Packing two 16-bit lanes and splitting the result returns the lanes, and
/// splitting a 32-bit lane and repacking the halves returns the lane.
pub proof fn lemma_i16_pair_roundtrip(lo: i16, hi: i16, x: i32)
    by (bit_vector)
    ensures
        i16_lo_of_i32(i32_from_i16_pair(lo, hi)) == lo,
        i16_hi_of_i32(i32_from_i16_pair(lo, hi)) == hi,
        i32_from_i16_pair(i16_lo_of_i32(x), i16_hi_of_i32(x)) == x,
{
}

/// Packing two 32-bit lanes and splitting the result returns the lanes, and
/// splitting a 64-bit lane and repacking the halves returns the lane.
pub proof fn lemma_i32_pair_roundtrip(lo: i32, hi: i32, x: i64)
    by (bit_vector)
    ensures
        i32_lo_of_i64(i64_from_i32_pair(lo, hi)) == lo,
        i32_hi_of_i64(i64_from_i32_pair(lo, hi)) == hi,
        i64_from_i32_pair(i32_lo_of_i64(x), i32_hi_of_i64(x)) == x,
{
}

/// The unsigned form of the 32-bit pair round trip.
pub proof fn lemma_u32_pair_roundtrip(lo: u32, hi: u32, x: u64)
    by (bit_vector)
    ensures
        u32_lo_of_u64(u64_from_u32_pair(lo, hi)) == lo,
        u32_hi_of_u64(u64_from_u32_pair(lo, hi)) == hi,
        u64_from_u32_pair(u32_lo_of_u64(x), u32_hi_of_u64(x)) == x,
{
}

/// Reinterpreting a 32-bit lane between its signed and unsigned views keeps
/// the bits: the two casts invert each other.
pub proof fn lemma_i32_u32_roundtrip(x: i32, y: u32)
    by (bit_vector)
    ensures
        ((x as u32) as i32) == x,
        ((y as i32) as u32) == y,
{
}

// ---------------------------------------------------------------------------
// Packing and splitting of lanes, whole-register level.
// ---------------------------------------------------------------------------

/// Sixteen 16-bit lanes seen as eight 32-bit lanes over the same bits.
pub open spec fn i16s_as_i32s(s: Seq<i16>) -> Seq<i32> {
    Seq::new(s.len() / 2, |j: int| i32_from_i16_pair(s[2 * j], s[2 * j + 1]))
}

/// Eight 32-bit lanes seen as sixteen 16-bit lanes over the same bits.
pub open spec fn i32s_as_i16s(s: Seq<i32>) -> Seq<i16> {
    Seq::new(
        s.len() * 2,
        |k: int| if k % 2 == 0 { i16_lo_of_i32(s[k / 2]) } else { i16_hi_of_i32(s[k / 2]) },
    )
}

/// Eight 32-bit lanes seen as four 64-bit lanes over the same bits.
pub open spec fn i32s_as_i64s(s: Seq<i32>) -> Seq<i64> {
    Seq::new(s.len() / 2, |j: int| i64_from_i32_pair(s[2 * j], s[2 * j + 1]))
}

/// Four 64-bit lanes seen as eight 32-bit lanes over the same bits.
pub open spec fn i64s_as_i32s(s: Seq<i64>) -> Seq<i32> {
    Seq::new(
        s.len() * 2,
        |k: int| if k % 2 == 0 { i32_lo_of_i64(s[k / 2]) } else { i32_hi_of_i64(s[k / 2]) },
    )
}

/// Sixteen 16-bit lanes seen as four 64-bit lanes over the same bits.
pub open spec fn i16s_as_i64s(s: Seq<i16>) -> Seq<i64> {
    i32s_as_i64s(i16s_as_i32s(s))
}

/// Four 64-bit lanes seen as sixteen 16-bit lanes over the same bits.
pub open spec fn i64s_as_i16s(s: Seq<i64>) -> Seq<i16> {
    i32s_as_i16s(i64s_as_i32s(s))
}

/// Signed 32-bit lanes seen as their unsigned bit patterns.
pub open spec fn i32s_as_u32s(s: Seq<i32>) -> Seq<u32> {
    Seq::new(s.len(), |k: int| (s[k] as u32))
}

/// Unsigned 32-bit bit patterns seen as signed 32-bit lanes.
pub open spec fn u32s_as_i32s(s: Seq<u32>) -> Seq<i32> {
    Seq::new(s.len(), |k: int| (s[k] as i32))
}

/// Eight 32-bit bit patterns seen as four 64-bit bit patterns.
pub open spec fn u32s_as_u64s(s: Seq<u32>) -> Seq<u64> {
    Seq::new(s.len() / 2, |j: int| u64_from_u32_pair(s[2 * j], s[2 * j + 1]))
}

/// Four 64-bit bit patterns seen as eight 32-bit bit patterns.
pub open spec fn u64s_as_u32s(s: Seq<u64>) -> Seq<u32> {
    Seq::new(
        s.len() * 2,
        |k: int| if k % 2 == 0 { u32_lo_of_u64(s[k / 2]) } else { u32_hi_of_u64(s[k / 2]) },
    )
}

/// Four 64-bit integer lanes seen as eight 32-bit bit patterns.
pub open spec fn i64s_as_u32s(s: Seq<i64>) -> Seq<u32> {
    i32s_as_u32s(i64s_as_i32s(s))
}

/// Four 64-bit bit patterns seen as eight signed 32-bit lanes.
pub open spec fn u64s_as_i32s(s: Seq<u64>) -> Seq<i32> {
    u32s_as_i32s(u64s_as_u32s(s))
}

// ---------------------------------------------------------------------------
// Selection patterns for blend and permute.
// ---------------------------------------------------------------------------

/// Bit `j` of a blend pattern: `true` selects the second operand.
pub open spec fn sel_bit(imm: u32, j: u32) -> bool {
    (imm >> j) & 1 == 1
}

/// The `j`-th one-bit field of a permute pattern, one bit per lane.
pub open spec fn sel1(imm: u32, j: u32) -> u32 {
    (imm >> j) & 1
}

/// The `j`-th two-bit field of a permute pattern, two bits per lane.
pub open spec fn sel2(imm: u32, j: u32) -> u32 {
    (imm >> (2 * j)) & 3
}

/// A blend pattern of zero selects the first operand in every lane.
pub proof fn lemma_sel_bit_zero()
    by (bit_vector)
    ensures
        forall|j: u32| !(#[trigger] sel_bit(0, j)),
{
}

/// The two-bit fields of the pattern `0xE4` select each lane's own index.
pub proof fn lemma_sel2_identity_pattern()
    by (bit_vector)
    ensures
        sel2(0xE4, 0) == 0,
        sel2(0xE4, 1) == 1,
        sel2(0xE4, 2) == 2,
        sel2(0xE4, 3) == 3,
{
}

/// The one-bit fields of the pattern `0xA` select each lane's own in-pair
/// position: lanes 0 and 2 keep bit 0, lanes 1 and 3 take bit 1.
pub proof fn lemma_sel1_identity_pattern()
    by (bit_vector)
    ensures
        sel1(0xA, 0) == 0,
        sel1(0xA, 1) == 1,
        sel1(0xA, 2) == 0,
        sel1(0xA, 3) == 1,
{
}

/// Per-lane blend under a compile-time pattern.  Lane `j` of the result is
/// taken from `b` when bit `j mod 8` of the pattern is set, else from `a`;
/// patterns are 8 bits wide, repeated for the upper half of a 16-lane vector.
pub open spec fn blend_lanes<T>(a: Seq<T>, b: Seq<T>, imm: u32) -> Seq<T> {
    Seq::new(a.len(), |j: int| if sel_bit(imm, (j % 8) as u32) { b[j] } else { a[j] })
}

/// Full-width four-lane permute: lane `j` of the result is the source lane
/// named by the `j`-th two-bit field of the pattern.
pub open spec fn perm4_lanes<T>(s: Seq<T>, imm: u32) -> Seq<T> {
    Seq::new(4, |j: int| s[sel2(imm, j as u32) as int])
}

/// In-half permute of eight 32-bit lanes: each 128-bit half is reordered by
/// the same two-bit-per-lane pattern.
pub open spec fn perm_in_half_32(s: Seq<u32>, imm: u32) -> Seq<u32> {
    Seq::new(8, |j: int| s[4 * (j / 4) + sel2(imm, (j % 4) as u32) as int])
}

/// In-half permute of four 64-bit lanes: lane `j` takes the element of its
/// own 128-bit half named by bit `j` of the pattern.
pub open spec fn perm_in_half_64(s: Seq<u64>, imm: u32) -> Seq<u64> {
    Seq::new(4, |j: int| s[2 * (j / 2) + sel1(imm, j as u32) as int])
}

/// Variable cross-lane permute of eight 32-bit lanes: lane `j` takes the
/// source lane named by the low three bits of index lane `j`.
pub open spec fn permvar_32(s: Seq<u32>, idx: Seq<i32>) -> Seq<u32> {
    Seq::new(8, |j: int| s[(idx[j] & 7) as int])
}

/// Variable in-half permute of four 64-bit lanes: lane `j` takes the element
/// of its own 128-bit half named by bit 1 of index lane `2 j`.
pub open spec fn permvar_64(s: Seq<u64>, idx: Seq<i32>) -> Seq<u64> {
    Seq::new(4, |j: int| s[2 * (j / 2) + ((idx[2 * j] >> 1) & 1) as int])
}

/// The low three bits of a 32-bit index name one of eight lanes.
pub proof fn lemma_mask7_bounds()
    by (bit_vector)
    ensures
        forall|x: i32| 0 <= #[trigger] (x & 7) < 8,
        forall|x: i32| 0 <= #[trigger] ((x >> 1) & 1) < 2,
        forall|x: i32| 0 <= x < 8 ==> #[trigger] (x & 7) == x,
{
}

// ---------------------------------------------------------------------------
// Saturation.
// ---------------------------------------------------------------------------

/// A 32-bit lane narrowed to 16 bits with signed saturation: values outside
/// the 16-bit signed range clamp to the nearest representable extreme.
pub open spec fn sat_i16(x: i32) -> i16 {
    if x > 32767 {
        i16::MAX
    } else if x < -32768 {
        i16::MIN
    } else {
        x as i16
    }
}

/// Two vectors of eight 32-bit lanes packed into sixteen 16-bit lanes with
/// signed saturation, in the hardware's per-half order: the low half of the
/// result holds `a`'s low four lanes then `b`'s low four, the high half holds
/// `a`'s high four then `b`'s high four.
pub open spec fn packs_lanes(a: Seq<i32>, b: Seq<i32>) -> Seq<i16> {
    Seq::new(
        16,
        |k: int|
            if k < 4 {
                sat_i16(a[k])
            } else if k < 8 {
                sat_i16(b[k - 4])
            } else if k < 12 {
                sat_i16(a[k - 4])
            } else {
                sat_i16(b[k - 8])
            },
    )
}

// ---------------------------------------------------------------------------
// Executable counterparts of the scalar helpers.
// ---------------------------------------------------------------------------

/// Packs two 16-bit lanes into the 32-bit lane over the same bits.
pub(crate) fn pack_i32(lo: i16, hi: i16) -> (r: i32)
    ensures
        r == i32_from_i16_pair(lo, hi),
{
    (((lo as u16) as u32) | (((hi as u16) as u32) << 16)) as i32
}

/// Reads the low 16 bits of a 32-bit lane.
pub(crate) fn split_lo16(x: i32) -> (r: i16)
    ensures
        r == i16_lo_of_i32(x),
{
    x as i16
}

/// Reads the high 16 bits of a 32-bit lane.
pub(crate) fn split_hi16(x: i32) -> (r: i16)
    ensures
        r == i16_hi_of_i32(x),
{
    (((x as u32) >> 16) as u16) as i16
}

/// Packs two 32-bit lanes into the 64-bit lane over the same bits.
pub(crate) fn pack_i64(lo: i32, hi: i32) -> (r: i64)
    ensures
        r == i64_from_i32_pair(lo, hi),
{
    ((((lo as u32) as u64) | (((hi as u32) as u64) << 32))) as i64
}

/// Reads the low 32 bits of a 64-bit lane.
pub(crate) fn split_lo32(x: i64) -> (r: i32)
    ensures
        r == i32_lo_of_i64(x),
{
    x as i32
}

/// Reads the high 32 bits of a 64-bit lane.
pub(crate) fn split_hi32(x: i64) -> (r: i32)
    ensures
        r == i32_hi_of_i64(x),
{
    (((x as u64) >> 32) as u32) as i32
}

/// Packs two 32-bit bit patterns into the 64-bit pattern over the same bits.
pub(crate) fn pack_u64(lo: u32, hi: u32) -> (r: u64)
    ensures
        r == u64_from_u32_pair(lo, hi),
{
    (lo as u64) | ((hi as u64) << 32)
}

/// Reads the low 32 bits of a 64-bit bit pattern.
pub(crate) fn split_lo_u32(x: u64) -> (r: u32)
    ensures
        r == u32_lo_of_u64(x),
{
    x as u32
}

/// Reads the high 32 bits of a 64-bit bit pattern.
pub(crate) fn split_hi_u32(x: u64) -> (r: u32)
    ensures
        r == u32_hi_of_u64(x),
{
    (x >> 32) as u32
}

/// Reads the `j`-th two-bit field of a permute pattern.
pub(crate) fn sel2_exec(imm: u32, j: u32) -> (r: u32)
    requires
        j < 16,
    ensures
        r == sel2(imm, j),
        r < 4,
{
    proof {
        assert((imm >> (2 * j)) & 3 < 4) by (bit_vector);
    }
    (imm >> (2 * j)) & 3
}

/// Reads bit `j` of a blend or permute pattern.
pub(crate) fn sel1_exec(imm: u32, j: u32) -> (r: u32)
    requires
        j < 32,
    ensures
        r == sel1(imm, j),
        r < 2,
{
    proof {
        assert((imm >> j) & 1 < 2) by (bit_vector);
    }
    (imm >> j) & 1
}

/// Tells whether bit `j` of a blend pattern is set.
pub(crate) fn sel_bit_exec(imm: u32, j: u32) -> (r: bool)
    requires
        j < 32,
    ensures
        r == sel_bit(imm, j),
{
    (imm >> j) & 1 == 1
}

/// Reads the low three bits of a 32-bit index as a lane number.
pub(crate) fn mask7_exec(x: i32) -> (r: usize)
    ensures
        r == (x & 7) as int,
        r < 8,
{
    proof {
        assert(0 <= x & 7 < 8) by (bit_vector);
    }
    (x & 7) as usize
}

/// Reads bit 1 of a 32-bit index as an in-pair lane number.
pub(crate) fn bit1_exec(x: i32) -> (r: usize)
    ensures
        r == ((x >> 1) & 1) as int,
        r < 2,
{
    proof {
        assert(0 <= (x >> 1) & 1 < 2) by (bit_vector);
    }
    ((x >> 1) & 1) as usize
}

/// Narrows a 32-bit lane to 16 bits with signed saturation.
pub(crate) fn sat16(x: i32) -> (r: i16)
    ensures
        r == sat_i16(x),
{
    if x > 32767 {
        i16::MAX
    } else if x < -32768 {
        i16::MIN
    } else {
        x as i16
    }
}

} // verus!
