//! Vectors of 32-bit integer lanes: eight lanes in a 256-bit register and
//! four lanes in a 128-bit register.

use vstd::prelude::*;
use crate::lanebits::blend_lanes;
use crate::lanebits::i32s_as_i16s;
use crate::lanebits::i32s_as_i64s;
use crate::lanebits::i32s_as_u32s;
use crate::lanebits::pack_i64;
use crate::lanebits::packs_lanes;
use crate::lanebits::sat16;
use crate::lanebits::sel_bit_exec;
use crate::lanebits::split_hi16;
use crate::lanebits::split_lo16;
use crate::simd_f32::f32x8;
use crate::simd_i16::i16x16;
use crate::simd_i64::i64x4;
use vstd::wrapping::i32_specs;

verus! {

/// Eight 32-bit integer lanes in one 256-bit register.
#[allow(non_camel_case_types)]
#[derive(Debug, Copy, Clone)]
pub struct i32x8 {
    pub lanes: [i32; 8],
}

impl View for i32x8 {
    type V = Seq<i32>;

    open spec fn view(&self) -> Seq<i32> {
        self.lanes@
    }
}

impl i32x8 {
    /// Builds a vector with scalar `vk` in lane `k - 1` (lane 0 first).
    pub fn new(v1: i32, v2: i32, v3: i32, v4: i32, v5: i32, v6: i32, v7: i32, v8: i32) -> (r: Self)
        ensures
            r@ == seq![v1, v2, v3, v4, v5, v6, v7, v8],
    {
        let r = Self { lanes: [v1, v2, v3, v4, v5, v6, v7, v8] };
        proof {
            assert(r@ =~= seq![v1, v2, v3, v4, v5, v6, v7, v8]);
        }
        r
    }

    /// Broadcasts one scalar into all eight lanes.
    pub fn splat(v: i32) -> (r: Self)
        ensures
            r@.len() == 8,
            forall|k: int| 0 <= k < 8 ==> r@[k] == v,
    {
        Self { lanes: [v; 8] }
    }

    /// Reads the first eight elements of `a` into the lanes, lane 0 from
    /// `a[0]`.  The region must cover all eight lanes:
    /// the bound that the unverified checked tier tests at run time, failing
    /// fast on a shorter region, stands here as a precondition.
    pub fn from_slice(a: &[i32]) -> (r: Self)
        requires
            a@.len() >= 8,
        ensures
            r@ == a@.subrange(0, 8),
    {
        Self::from_slice_unchecked(a)
    }

    /// The unchecked tier of [`Self::from_slice`]: same reads, and the caller
    /// owes the same eight-element bound, stated as a precondition.
    pub fn from_slice_unchecked(a: &[i32]) -> (r: Self)
        requires
            a@.len() >= 8,
        ensures
            r@ == a@.subrange(0, 8),
    {
        let r = Self { lanes: [a[0], a[1], a[2], a[3], a[4], a[5], a[6], a[7]] };
        proof {
            assert(r@ =~= a@.subrange(0, 8));
        }
        r
    }

    /// Per-lane select between `self` and `other` under the compile-time
    /// pattern `IMM`: lane `j` comes from `other` when bit `j` of the pattern
    /// is set.
    pub fn blend<const IMM: u32>(self, other: Self) -> (r: Self)
        requires
            IMM < 256,
        ensures
            r@ == blend_lanes(self@, other@, IMM),
    {
        let a = &self.lanes;
        let b = &other.lanes;
        let r = Self {
            lanes: [
                if sel_bit_exec(IMM, 0) { b[0] } else { a[0] },
                if sel_bit_exec(IMM, 1) { b[1] } else { a[1] },
                if sel_bit_exec(IMM, 2) { b[2] } else { a[2] },
                if sel_bit_exec(IMM, 3) { b[3] } else { a[3] },
                if sel_bit_exec(IMM, 4) { b[4] } else { a[4] },
                if sel_bit_exec(IMM, 5) { b[5] } else { a[5] },
                if sel_bit_exec(IMM, 6) { b[6] } else { a[6] },
                if sel_bit_exec(IMM, 7) { b[7] } else { a[7] },
            ],
        };
        proof {
            assert(r@ =~= blend_lanes(self@, other@, IMM));
        }
        r
    }

    /// Reads the lane at the compile-time index `IDX`.
    pub fn get<const IDX: u32>(self) -> (r: i32)
        requires
            IDX < 8,
        ensures
            r == self@[IDX as int],
    {
        self.lanes[IDX as usize]
    }

    /// Returns a copy of the vector with lane `IDX` replaced by `v`.
    pub fn set<const IDX: u32>(self, v: i32) -> (r: Self)
        requires
            IDX < 8,
        ensures
            r@ == self@.update(IDX as int, v),
    {
        let mut lanes = self.lanes;
        lanes[IDX as usize] = v;
        Self { lanes }
    }

    /// Packs `self` and `other` into sixteen 16-bit lanes with signed
    /// saturation: out-of-range lanes clamp to the 16-bit extremes instead of
    /// wrapping, in the hardware's per-half order stated by
    /// [`packs_lanes`].
    pub fn packs(self, other: i32x8) -> (r: i16x16)
        ensures
            r@ == packs_lanes(self@, other@),
    {
        let a = &self.lanes;
        let b = &other.lanes;
        let r = i16x16 {
            lanes: [
                sat16(a[0]),
                sat16(a[1]),
                sat16(a[2]),
                sat16(a[3]),
                sat16(b[0]),
                sat16(b[1]),
                sat16(b[2]),
                sat16(b[3]),
                sat16(a[4]),
                sat16(a[5]),
                sat16(a[6]),
                sat16(a[7]),
                sat16(b[4]),
                sat16(b[5]),
                sat16(b[6]),
                sat16(b[7]),
            ],
        };
        proof {
            assert(r@ =~= packs_lanes(self@, other@));
        }
        r
    }

    /// Reinterprets the same 256 bits as eight 32-bit float lanes, given as
    /// their IEEE-754 bit patterns; no numeric conversion happens.
    pub fn to_raw_f32(self) -> (r: f32x8)
        ensures
            r@ == i32s_as_u32s(self@),
    {
        let a = &self.lanes;
        let r = f32x8 {
            lanes: [
                a[0] as u32,
                a[1] as u32,
                a[2] as u32,
                a[3] as u32,
                a[4] as u32,
                a[5] as u32,
                a[6] as u32,
                a[7] as u32,
            ],
        };
        proof {
            assert(r@ =~= i32s_as_u32s(self@));
        }
        r
    }

    /// Reinterprets the same 256 bits as sixteen 16-bit integer lanes.
    pub fn to_raw_i16(self) -> (r: i16x16)
        ensures
            r@ == i32s_as_i16s(self@),
    {
        let a = &self.lanes;
        let r = i16x16 {
            lanes: [
                split_lo16(a[0]),
                split_hi16(a[0]),
                split_lo16(a[1]),
                split_hi16(a[1]),
                split_lo16(a[2]),
                split_hi16(a[2]),
                split_lo16(a[3]),
                split_hi16(a[3]),
                split_lo16(a[4]),
                split_hi16(a[4]),
                split_lo16(a[5]),
                split_hi16(a[5]),
                split_lo16(a[6]),
                split_hi16(a[6]),
                split_lo16(a[7]),
                split_hi16(a[7]),
            ],
        };
        proof {
            assert(r@ =~= i32s_as_i16s(self@));
        }
        r
    }

    /// Reinterprets the same 256 bits as four 64-bit integer lanes.
    pub fn to_raw_i64(self) -> (r: i64x4)
        ensures
            r@ == i32s_as_i64s(self@),
    {
        let a = &self.lanes;
        let r = i64x4 {
            lanes: [
                pack_i64(a[0], a[1]),
                pack_i64(a[2], a[3]),
                pack_i64(a[4], a[5]),
                pack_i64(a[6], a[7]),
            ],
        };
        proof {
            assert(r@ =~= i32s_as_i64s(self@));
        }
        r
    }

    /// Writes the eight lanes to the first eight elements of `a`, lane 0 to
    /// `a[0]`; the rest of the region is untouched.  The region must cover all
    /// eight lanes: the bound that the unverified checked tier tests at run
    /// time, failing fast on a shorter region, stands here as a precondition.
    pub fn store(self, a: &mut [i32])
        requires
            old(a)@.len() >= 8,
        ensures
            final(a)@.len() == old(a)@.len(),
            forall|k: int| 0 <= k < 8 ==> final(a)@[k] == self@[k],
            forall|k: int| 8 <= k < final(a)@.len() ==> final(a)@[k] == old(a)@[k],
    {
        self.store_unchecked(a)
    }

    /// The unchecked tier of [`Self::store`]: same writes, and the caller owes
    /// the same eight-element bound, stated as a precondition.
    pub fn store_unchecked(self, a: &mut [i32])
        requires
            old(a)@.len() >= 8,
        ensures
            final(a)@.len() == old(a)@.len(),
            forall|k: int| 0 <= k < 8 ==> final(a)@[k] == self@[k],
            forall|k: int| 8 <= k < final(a)@.len() ==> final(a)@[k] == old(a)@[k],
    {
        a[0] = self.lanes[0];
        a[1] = self.lanes[1];
        a[2] = self.lanes[2];
        a[3] = self.lanes[3];
        a[4] = self.lanes[4];
        a[5] = self.lanes[5];
        a[6] = self.lanes[6];
        a[7] = self.lanes[7];
    }

    /// Lane-wise wrapping addition.
    pub fn add(self, rhs: Self) -> (r: Self)
        ensures
            r@.len() == 8,
            forall|k: int| 0 <= k < 8 ==> r@[k] == i32_specs::wrapping_add(self@[k], rhs@[k]),
    {
        let a = &self.lanes;
        let b = &rhs.lanes;
        Self {
            lanes: [
                a[0].wrapping_add(b[0]),
                a[1].wrapping_add(b[1]),
                a[2].wrapping_add(b[2]),
                a[3].wrapping_add(b[3]),
                a[4].wrapping_add(b[4]),
                a[5].wrapping_add(b[5]),
                a[6].wrapping_add(b[6]),
                a[7].wrapping_add(b[7]),
            ],
        }
    }

    /// Lane-wise wrapping subtraction.
    pub fn sub(self, rhs: Self) -> (r: Self)
        ensures
            r@.len() == 8,
            forall|k: int| 0 <= k < 8 ==> r@[k] == i32_specs::wrapping_sub(self@[k], rhs@[k]),
    {
        let a = &self.lanes;
        let b = &rhs.lanes;
        Self {
            lanes: [
                a[0].wrapping_sub(b[0]),
                a[1].wrapping_sub(b[1]),
                a[2].wrapping_sub(b[2]),
                a[3].wrapping_sub(b[3]),
                a[4].wrapping_sub(b[4]),
                a[5].wrapping_sub(b[5]),
                a[6].wrapping_sub(b[6]),
                a[7].wrapping_sub(b[7]),
            ],
        }
    }

    /// Lane-wise multiplication keeping the low 32 bits of each product, the
    /// same modular semantics as ordinary 32-bit multiplication on every lane.
    pub fn mul(self, rhs: Self) -> (r: Self)
        ensures
            r@.len() == 8,
            forall|k: int| 0 <= k < 8 ==> r@[k] == i32_specs::wrapping_mul(self@[k], rhs@[k]),
    {
        let a = &self.lanes;
        let b = &rhs.lanes;
        Self {
            lanes: [
                a[0].wrapping_mul(b[0]),
                a[1].wrapping_mul(b[1]),
                a[2].wrapping_mul(b[2]),
                a[3].wrapping_mul(b[3]),
                a[4].wrapping_mul(b[4]),
                a[5].wrapping_mul(b[5]),
                a[6].wrapping_mul(b[6]),
                a[7].wrapping_mul(b[7]),
            ],
        }
    }
}

/// Four 32-bit integer lanes in one 128-bit register.
#[allow(non_camel_case_types)]
#[derive(Debug, Copy, Clone)]
pub struct i32x4 {
    pub lanes: [i32; 4],
}

impl View for i32x4 {
    type V = Seq<i32>;

    open spec fn view(&self) -> Seq<i32> {
        self.lanes@
    }
}

impl i32x4 {
    /// Builds a vector with scalar `vk` in lane `k - 1` (lane 0 first).
    pub fn new(v1: i32, v2: i32, v3: i32, v4: i32) -> (r: Self)
        ensures
            r@ == seq![v1, v2, v3, v4],
    {
        let r = Self { lanes: [v1, v2, v3, v4] };
        proof {
            assert(r@ =~= seq![v1, v2, v3, v4]);
        }
        r
    }

    /// Reads the lane at the compile-time index `IDX`.
    pub fn get<const IDX: u32>(self) -> (r: i32)
        requires
            IDX < 4,
        ensures
            r == self@[IDX as int],
    {
        self.lanes[IDX as usize]
    }

    /// Returns a copy of the vector with lane `IDX` replaced by `v`.
    pub fn set<const IDX: u32>(self, v: i32) -> (r: Self)
        requires
            IDX < 4,
        ensures
            r@ == self@.update(IDX as int, v),
    {
        let mut lanes = self.lanes;
        lanes[IDX as usize] = v;
        Self { lanes }
    }

    /// Lane-wise wrapping addition.
    pub fn add(self, rhs: Self) -> (r: Self)
        ensures
            r@.len() == 4,
            forall|k: int| 0 <= k < 4 ==> r@[k] == i32_specs::wrapping_add(self@[k], rhs@[k]),
    {
        let a = &self.lanes;
        let b = &rhs.lanes;
        Self {
            lanes: [
                a[0].wrapping_add(b[0]),
                a[1].wrapping_add(b[1]),
                a[2].wrapping_add(b[2]),
                a[3].wrapping_add(b[3]),
            ],
        }
    }

    /// Lane-wise wrapping subtraction.
    pub fn sub(self, rhs: Self) -> (r: Self)
        ensures
            r@.len() == 4,
            forall|k: int| 0 <= k < 4 ==> r@[k] == i32_specs::wrapping_sub(self@[k], rhs@[k]),
    {
        let a = &self.lanes;
        let b = &rhs.lanes;
        Self {
            lanes: [
                a[0].wrapping_sub(b[0]),
                a[1].wrapping_sub(b[1]),
                a[2].wrapping_sub(b[2]),
                a[3].wrapping_sub(b[3]),
            ],
        }
    }

    /// Lane-wise multiplication keeping the low 32 bits of each product.
    pub fn mul(self, rhs: Self) -> (r: Self)
        ensures
            r@.len() == 4,
            forall|k: int| 0 <= k < 4 ==> r@[k] == i32_specs::wrapping_mul(self@[k], rhs@[k]),
    {
        let a = &self.lanes;
        let b = &rhs.lanes;
        Self {
            lanes: [
                a[0].wrapping_mul(b[0]),
                a[1].wrapping_mul(b[1]),
                a[2].wrapping_mul(b[2]),
                a[3].wrapping_mul(b[3]),
            ],
        }
    }
}

} // verus!
