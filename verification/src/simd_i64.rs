//! The vector of four 64-bit integer lanes in a 256-bit register.

use vstd::prelude::*;
use crate::lanebits::i64s_as_i16s;
use crate::lanebits::i64s_as_u32s;
use crate::lanebits::perm4_lanes;
use crate::lanebits::sel2_exec;
use crate::lanebits::split_hi16;
use crate::lanebits::split_hi32;
use crate::lanebits::split_lo16;
use crate::lanebits::split_lo32;
use crate::simd_f32::f32x8;
use crate::simd_i16::i16x16;
use vstd::wrapping::i64_specs;

verus! {

/// Four 64-bit integer lanes in one 256-bit register.
#[allow(non_camel_case_types)]
#[derive(Debug, Copy, Clone)]
pub struct i64x4 {
    pub lanes: [i64; 4],
}

impl View for i64x4 {
    type V = Seq<i64>;

    open spec fn view(&self) -> Seq<i64> {
        self.lanes@
    }
}

impl i64x4 {
    /// Builds a vector with scalar `vk` in lane `k - 1` (lane 0 first).
    pub fn new(v1: i64, v2: i64, v3: i64, v4: i64) -> (r: Self)
        ensures
            r@ == seq![v1, v2, v3, v4],
    {
        let r = Self { lanes: [v1, v2, v3, v4] };
        proof {
            assert(r@ =~= seq![v1, v2, v3, v4]);
        }
        r
    }

    /// Reads the lane at the compile-time index `IDX`.
    pub fn get<const IDX: u32>(self) -> (r: i64)
        requires
            IDX < 4,
        ensures
            r == self@[IDX as int],
    {
        self.lanes[IDX as usize]
    }

    /// Returns a copy of the vector with lane `IDX` replaced by `v`.
    pub fn set<const IDX: u32>(self, v: i64) -> (r: Self)
        requires
            IDX < 4,
        ensures
            r@ == self@.update(IDX as int, v),
    {
        let mut lanes = self.lanes;
        lanes[IDX as usize] = v;
        Self { lanes }
    }

    /// Reorders the four lanes under the compile-time pattern `IMM`: lane `j`
    /// of the result is the source lane named by the `j`-th two-bit field.
    pub fn permute<const IMM: u32>(self) -> (r: Self)
        requires
            IMM < 256,
        ensures
            r@ == perm4_lanes(self@, IMM),
    {
        let s0 = sel2_exec(IMM, 0);
        let s1 = sel2_exec(IMM, 1);
        let s2 = sel2_exec(IMM, 2);
        let s3 = sel2_exec(IMM, 3);
        let a = &self.lanes;
        let r = Self {
            lanes: [a[s0 as usize], a[s1 as usize], a[s2 as usize], a[s3 as usize]],
        };
        proof {
            assert(r@ =~= perm4_lanes(self@, IMM));
        }
        r
    }

    /// Reads four lanes from `a` at the element indices named by `idx`.  The
    /// hardware gather scales its indices by a compile-time byte width; a
    /// typed region fixes that width to the eight-byte lane, so `SCALE` must
    /// be 8, and every index must name an element of the region — the caller's
    /// obligations of the raw gather, stated as preconditions.
    pub fn gather_unchecked<const SCALE: u32>(a: &[i64], idx: i64x4) -> (r: Self)
        requires
            SCALE == 8,
            forall|k: int| 0 <= k < 4 ==> 0 <= #[trigger] idx@[k] < a@.len(),
        ensures
            r@.len() == 4,
            forall|k: int| 0 <= k < 4 ==> r@[k] == a@[idx@[k] as int],
    {
        proof {
            assert(0 <= idx@[0] < a@.len());
            assert(0 <= idx@[1] < a@.len());
            assert(0 <= idx@[2] < a@.len());
            assert(0 <= idx@[3] < a@.len());
        }
        let i0 = idx.lanes[0] as usize;
        let i1 = idx.lanes[1] as usize;
        let i2 = idx.lanes[2] as usize;
        let i3 = idx.lanes[3] as usize;
        Self { lanes: [a[i0], a[i1], a[i2], a[i3]] }
    }

    /// Reinterprets the same 256 bits as sixteen 16-bit integer lanes.
    pub fn to_raw_i16(self) -> (r: i16x16)
        ensures
            r@ == i64s_as_i16s(self@),
    {
        let a = &self.lanes;
        let lo0 = split_lo32(a[0]);
        let hi0 = split_hi32(a[0]);
        let lo1 = split_lo32(a[1]);
        let hi1 = split_hi32(a[1]);
        let lo2 = split_lo32(a[2]);
        let hi2 = split_hi32(a[2]);
        let lo3 = split_lo32(a[3]);
        let hi3 = split_hi32(a[3]);
        let r = i16x16 {
            lanes: [
                split_lo16(lo0),
                split_hi16(lo0),
                split_lo16(hi0),
                split_hi16(hi0),
                split_lo16(lo1),
                split_hi16(lo1),
                split_lo16(hi1),
                split_hi16(hi1),
                split_lo16(lo2),
                split_hi16(lo2),
                split_lo16(hi2),
                split_hi16(hi2),
                split_lo16(lo3),
                split_hi16(lo3),
                split_lo16(hi3),
                split_hi16(hi3),
            ],
        };
        proof {
            assert(r@ =~= i64s_as_i16s(self@));
        }
        r
    }

    /// Reinterprets the same 256 bits as eight 32-bit float lanes, given as
    /// their IEEE-754 bit patterns; no numeric conversion happens.
    pub fn to_raw_f32(self) -> (r: f32x8)
        ensures
            r@ == i64s_as_u32s(self@),
    {
        let a = &self.lanes;
        let r = f32x8 {
            lanes: [
                split_lo32(a[0]) as u32,
                split_hi32(a[0]) as u32,
                split_lo32(a[1]) as u32,
                split_hi32(a[1]) as u32,
                split_lo32(a[2]) as u32,
                split_hi32(a[2]) as u32,
                split_lo32(a[3]) as u32,
                split_hi32(a[3]) as u32,
            ],
        };
        proof {
            assert(r@ =~= i64s_as_u32s(self@));
        }
        r
    }

    /// Writes the four lanes to the first four elements of `a`, lane 0 to
    /// `a[0]`; the rest of the region is untouched.  The region must cover all
    /// four lanes: the bound that the unverified checked tier tests at run
    /// time, failing fast on a shorter region, stands here as a precondition.
    pub fn store(self, a: &mut [i64])
        requires
            old(a)@.len() >= 4,
        ensures
            final(a)@.len() == old(a)@.len(),
            forall|k: int| 0 <= k < 4 ==> final(a)@[k] == self@[k],
            forall|k: int| 4 <= k < final(a)@.len() ==> final(a)@[k] == old(a)@[k],
    {
        self.store_unchecked(a)
    }

    /// The unchecked tier of [`Self::store`]: same writes, and the caller owes
    /// the same four-element bound, stated as a precondition.
    pub fn store_unchecked(self, a: &mut [i64])
        requires
            old(a)@.len() >= 4,
        ensures
            final(a)@.len() == old(a)@.len(),
            forall|k: int| 0 <= k < 4 ==> final(a)@[k] == self@[k],
            forall|k: int| 4 <= k < final(a)@.len() ==> final(a)@[k] == old(a)@[k],
    {
        a[0] = self.lanes[0];
        a[1] = self.lanes[1];
        a[2] = self.lanes[2];
        a[3] = self.lanes[3];
    }

    /// Lane-wise wrapping addition.
    pub fn add(self, rhs: Self) -> (r: Self)
        ensures
            r@.len() == 4,
            forall|k: int| 0 <= k < 4 ==> r@[k] == i64_specs::wrapping_add(self@[k], rhs@[k]),
    {
        let a = &self.lanes;
        let b = &rhs.lanes;
        Self {
            lanes: [
                a[0].wrapping_add(b[0]),
                a[1].wrapping_add(b[1]),
                a[2].wrapping_add(b[2]),
                a[3].wrapping_add(b[3]),
            ],
        }
    }

    /// Lane-wise wrapping subtraction.
    pub fn sub(self, rhs: Self) -> (r: Self)
        ensures
            r@.len() == 4,
            forall|k: int| 0 <= k < 4 ==> r@[k] == i64_specs::wrapping_sub(self@[k], rhs@[k]),
    {
        let a = &self.lanes;
        let b = &rhs.lanes;
        Self {
            lanes: [
                a[0].wrapping_sub(b[0]),
                a[1].wrapping_sub(b[1]),
                a[2].wrapping_sub(b[2]),
                a[3].wrapping_sub(b[3]),
            ],
        }
    }
}

} // verus!
