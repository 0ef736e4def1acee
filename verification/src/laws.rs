//! The laws of the type family, proved over the lane-level spec functions
//! that the operations' contracts use.
//!
//! Two families of laws are stated.  Reinterpretation round trips: for each
//! pair of same-width vector types with casts in both directions, casting one
//! way and back returns bit-identical lanes, for every lane value — including
//! NaN bit patterns, which are just bit patterns here, and negative integers.
//! Identity patterns: a blend, permute or variable permute whose control
//! selects every lane's own position returns the input unchanged.

use vstd::prelude::*;
use crate::lanebits::blend_lanes;
use crate::lanebits::i16s_as_i32s;
use crate::lanebits::i16s_as_i64s;
use crate::lanebits::i32s_as_i16s;
use crate::lanebits::i32s_as_i64s;
use crate::lanebits::i32s_as_u32s;
use crate::lanebits::i64s_as_i16s;
use crate::lanebits::i64s_as_i32s;
use crate::lanebits::lemma_i16_pair_roundtrip;
use crate::lanebits::lemma_i32_pair_roundtrip;
use crate::lanebits::lemma_i32_u32_roundtrip;
use crate::lanebits::lemma_mask7_bounds;
use crate::lanebits::lemma_sel_bit_zero;
use crate::lanebits::lemma_sel1_identity_pattern;
use crate::lanebits::lemma_sel2_identity_pattern;
use crate::lanebits::lemma_u32_pair_roundtrip;
use crate::lanebits::perm4_lanes;
use crate::lanebits::perm_in_half_32;
use crate::lanebits::perm_in_half_64;
use crate::lanebits::permvar_32;
use crate::lanebits::permvar_64;
use crate::lanebits::u32s_as_i32s;
use crate::lanebits::u32s_as_u64s;
use crate::lanebits::u64s_as_u32s;

verus! {

// ---------------------------------------------------------------------------
// Reinterpretation round trips.
// ---------------------------------------------------------------------------

/// Reinterpreting sixteen 16-bit lanes as eight 32-bit lanes and back returns
/// bit-identical lanes, for every lane value.
pub proof fn lemma_roundtrip_i16_i32(s: Seq<i16>)
    requires
        s.len() == 16,
    ensures
        i32s_as_i16s(i16s_as_i32s(s)) == s,
{
    let t = i32s_as_i16s(i16s_as_i32s(s));
    assert forall|k: int| 0 <= k < 16 implies t[k] == s[k] by {
        lemma_i16_pair_roundtrip(s[2 * (k / 2)], s[2 * (k / 2) + 1], 0);
    }
    assert(t =~= s);
}

/// Reinterpreting eight 32-bit lanes as sixteen 16-bit lanes and back returns
/// bit-identical lanes, for every lane value.
pub proof fn lemma_roundtrip_i32_i16(s: Seq<i32>)
    requires
        s.len() == 8,
    ensures
        i16s_as_i32s(i32s_as_i16s(s)) == s,
{
    let t = i16s_as_i32s(i32s_as_i16s(s));
    assert forall|k: int| 0 <= k < 8 implies t[k] == s[k] by {
        lemma_i16_pair_roundtrip(0, 0, s[k]);
    }
    assert(t =~= s);
}

/// Reinterpreting eight 32-bit lanes as four 64-bit lanes and back returns
/// bit-identical lanes, for every lane value.
pub proof fn lemma_roundtrip_i32_i64(s: Seq<i32>)
    requires
        s.len() == 8,
    ensures
        i64s_as_i32s(i32s_as_i64s(s)) == s,
{
    let t = i64s_as_i32s(i32s_as_i64s(s));
    assert forall|k: int| 0 <= k < 8 implies t[k] == s[k] by {
        lemma_i32_pair_roundtrip(s[2 * (k / 2)], s[2 * (k / 2) + 1], 0);
    }
    assert(t =~= s);
}

/// Reinterpreting four 64-bit lanes as eight 32-bit lanes and back returns
/// bit-identical lanes, for every lane value.
pub proof fn lemma_roundtrip_i64_i32(s: Seq<i64>)
    requires
        s.len() == 4,
    ensures
        i32s_as_i64s(i64s_as_i32s(s)) == s,
{
    let t = i32s_as_i64s(i64s_as_i32s(s));
    assert forall|k: int| 0 <= k < 4 implies t[k] == s[k] by {
        lemma_i32_pair_roundtrip(0, 0, s[k]);
    }
    assert(t =~= s);
}

/// Reinterpreting sixteen 16-bit lanes as four 64-bit lanes and back returns
/// bit-identical lanes, for every lane value.
pub proof fn lemma_roundtrip_i16_i64(s: Seq<i16>)
    requires
        s.len() == 16,
    ensures
        i64s_as_i16s(i16s_as_i64s(s)) == s,
{
    lemma_roundtrip_i32_i64(i16s_as_i32s(s));
    lemma_roundtrip_i16_i32(s);
}

/// Reinterpreting four 64-bit lanes as sixteen 16-bit lanes and back returns
/// bit-identical lanes, for every lane value.
pub proof fn lemma_roundtrip_i64_i16(s: Seq<i64>)
    requires
        s.len() == 4,
    ensures
        i16s_as_i64s(i64s_as_i16s(s)) == s,
{
    lemma_roundtrip_i32_i16(i64s_as_i32s(s));
    lemma_roundtrip_i64_i32(s);
}

/// Reinterpreting 32-bit integer lanes as 32-bit float lanes and back returns
/// bit-identical lanes, for every lane value.
pub proof fn lemma_roundtrip_i32_f32(s: Seq<i32>)
    ensures
        u32s_as_i32s(i32s_as_u32s(s)) == s,
{
    let t = u32s_as_i32s(i32s_as_u32s(s));
    assert forall|k: int| 0 <= k < s.len() implies t[k] == s[k] by {
        lemma_i32_u32_roundtrip(s[k], 0);
    }
    assert(t =~= s);
}

/// Reinterpreting 32-bit float lanes as 32-bit integer lanes and back returns
/// bit-identical lanes, for every lane bit pattern — NaN patterns included.
pub proof fn lemma_roundtrip_f32_i32(s: Seq<u32>)
    ensures
        i32s_as_u32s(u32s_as_i32s(s)) == s,
{
    let t = i32s_as_u32s(u32s_as_i32s(s));
    assert forall|k: int| 0 <= k < s.len() implies t[k] == s[k] by {
        lemma_i32_u32_roundtrip(0, s[k]);
    }
    assert(t =~= s);
}

/// Reinterpreting eight 32-bit float lanes as four 64-bit float lanes and
/// back returns bit-identical lanes, for every lane bit pattern.
pub proof fn lemma_roundtrip_f32_f64(s: Seq<u32>)
    requires
        s.len() == 8,
    ensures
        u64s_as_u32s(u32s_as_u64s(s)) == s,
{
    let t = u64s_as_u32s(u32s_as_u64s(s));
    assert forall|k: int| 0 <= k < 8 implies t[k] == s[k] by {
        lemma_u32_pair_roundtrip(s[2 * (k / 2)], s[2 * (k / 2) + 1], 0);
    }
    assert(t =~= s);
}

/// Reinterpreting four 64-bit float lanes as eight 32-bit float lanes and
/// back returns bit-identical lanes, for every lane bit pattern.
pub proof fn lemma_roundtrip_f64_f32(s: Seq<u64>)
    requires
        s.len() == 4,
    ensures
        u32s_as_u64s(u64s_as_u32s(s)) == s,
{
    let t = u32s_as_u64s(u64s_as_u32s(s));
    assert forall|k: int| 0 <= k < 4 implies t[k] == s[k] by {
        lemma_u32_pair_roundtrip(0, 0, s[k]);
    }
    assert(t =~= s);
}

// ---------------------------------------------------------------------------
// Identity control patterns.
// ---------------------------------------------------------------------------

/// A blend whose pattern is zero returns the first operand unchanged, for
/// both operands and every lane value.
pub proof fn lemma_blend_identity<T>(a: Seq<T>, b: Seq<T>)
    ensures
        blend_lanes(a, b, 0) == a,
{
    lemma_sel_bit_zero();
    assert(blend_lanes(a, b, 0) =~= a);
}

/// A full-width four-lane permute under the pattern `0xE4`, whose two-bit
/// fields name each lane's own index, returns the input unchanged.
pub proof fn lemma_perm4_identity<T>(s: Seq<T>)
    requires
        s.len() == 4,
    ensures
        perm4_lanes(s, 0xE4) == s,
{
    lemma_sel2_identity_pattern();
    assert(perm4_lanes(s, 0xE4) =~= s);
}

/// An in-half permute of eight 32-bit lanes under the pattern `0xE4` returns
/// the input unchanged.
pub proof fn lemma_perm_in_half_32_identity(s: Seq<u32>)
    requires
        s.len() == 8,
    ensures
        perm_in_half_32(s, 0xE4) == s,
{
    lemma_sel2_identity_pattern();
    assert(perm_in_half_32(s, 0xE4) =~= s);
}

/// An in-half permute of four 64-bit lanes under the pattern `0xA`, whose
/// bits name each lane's own in-pair position, returns the input unchanged.
pub proof fn lemma_perm_in_half_64_identity(s: Seq<u64>)
    requires
        s.len() == 4,
    ensures
        perm_in_half_64(s, 0xA) == s,
{
    lemma_sel1_identity_pattern();
    assert(perm_in_half_64(s, 0xA) =~= s);
}

/// A variable permute of eight 32-bit lanes under an identity index vector —
/// one whose lane `j` holds `j` — returns the input unchanged.
pub proof fn lemma_permvar_32_identity(s: Seq<u32>, idx: Seq<i32>)
    requires
        s.len() == 8,
        idx.len() == 8,
        forall|j: int| 0 <= j < 8 ==> idx[j] == j,
    ensures
        permvar_32(s, idx) == s,
{
    lemma_mask7_bounds();
    assert(permvar_32(s, idx) =~= s);
}

/// A variable in-half permute of four 64-bit lanes under an identity control
/// vector — one whose controls name each lane's own in-pair position —
/// returns the input unchanged.
pub proof fn lemma_permvar_64_identity(s: Seq<u64>, idx: Seq<i32>)
    requires
        s.len() == 4,
        idx.len() == 8,
        forall|j: int| 0 <= j < 4 ==> ((#[trigger] idx[2 * j] >> 1) & 1) == j % 2,
    ensures
        permvar_64(s, idx) == s,
{
    assert forall|j: int| 0 <= j < 4 implies permvar_64(s, idx)[j] == s[j] by {
        assert(2 * (j / 2) + j % 2 == j);
    }
    assert(permvar_64(s, idx) =~= s);
}

} // verus!

