//! The vector of eight 32-bit float lanes in a 256-bit register, modelled by
//! the IEEE-754 bit pattern of each lane.
//!
//! Every operation here moves, selects or reinterprets lane bits; none of them
//! interprets a lane numerically, so each is exact on the bit patterns.  The
//! float arithmetic of the type family (addition, fused multiply-add, min and
//! max, horizontal add, reduction, truncation and flooring) interprets lanes
//! as IEEE-754 numbers and lives with the hardware entry points, outside the
//! verified library.

use vstd::prelude::*;
use crate::lanebits::blend_lanes;
use crate::lanebits::mask7_exec;
use crate::lanebits::pack_u64;
use crate::lanebits::perm4_lanes;
use crate::lanebits::perm_in_half_32;
use crate::lanebits::permvar_32;
use crate::lanebits::sel_bit_exec;
use crate::lanebits::sel2_exec;
use crate::lanebits::u32s_as_i32s;
use crate::lanebits::u32s_as_u64s;
use crate::lanebits::u64s_as_u32s;
use crate::simd_f64::f64x4;
use crate::simd_i32::i32x8;

verus! {

/// Eight 32-bit float lanes in one 256-bit register, each lane held as its
/// IEEE-754 bit pattern.
#[allow(non_camel_case_types)]
#[derive(Debug, Copy, Clone)]
pub struct f32x8 {
    pub lanes: [u32; 8],
}

impl View for f32x8 {
    type V = Seq<u32>;

    open spec fn view(&self) -> Seq<u32> {
        self.lanes@
    }
}

impl f32x8 {
    /// Builds a vector with bit pattern `vk` in lane `k - 1` (lane 0 first).
    pub fn new(v1: u32, v2: u32, v3: u32, v4: u32, v5: u32, v6: u32, v7: u32, v8: u32) -> (r: Self)
        ensures
            r@ == seq![v1, v2, v3, v4, v5, v6, v7, v8],
    {
        let r = Self { lanes: [v1, v2, v3, v4, v5, v6, v7, v8] };
        proof {
            assert(r@ =~= seq![v1, v2, v3, v4, v5, v6, v7, v8]);
        }
        r
    }

    /// Broadcasts one bit pattern into all eight lanes.
    pub fn splat(v: u32) -> (r: Self)
        ensures
            r@.len() == 8,
            forall|k: int| 0 <= k < 8 ==> r@[k] == v,
    {
        Self { lanes: [v; 8] }
    }

    /// Reorders the lanes of each 128-bit half independently under the
    /// compile-time pattern `IMM`: within its half, lane `j` takes the
    /// element named by the `j`-th two-bit field, the same pattern for both
    /// halves.
    pub fn permute<const IMM: u32>(self) -> (r: Self)
        requires
            IMM < 256,
        ensures
            r@ == perm_in_half_32(self@, IMM),
    {
        let s0 = sel2_exec(IMM, 0);
        let s1 = sel2_exec(IMM, 1);
        let s2 = sel2_exec(IMM, 2);
        let s3 = sel2_exec(IMM, 3);
        let a = &self.lanes;
        let r = Self {
            lanes: [
                a[s0 as usize],
                a[s1 as usize],
                a[s2 as usize],
                a[s3 as usize],
                a[4 + s0 as usize],
                a[4 + s1 as usize],
                a[4 + s2 as usize],
                a[4 + s3 as usize],
            ],
        };
        proof {
            assert(r@ =~= perm_in_half_32(self@, IMM));
        }
        r
    }

    /// Reorders the vector as four 64-bit lanes under the compile-time pattern
    /// `IMM`, by a round trip through the 64-bit float view: adjacent lane
    /// pairs move together.
    pub fn permute4x64<const IMM: u32>(self) -> (r: Self)
        requires
            IMM < 256,
        ensures
            r@ == u64s_as_u32s(perm4_lanes(u32s_as_u64s(self@), IMM)),
    {
        self.to_raw_f64().permute4x64::<IMM>().to_raw_f32()
    }

    /// Cross-lane permute driven by an index vector: lane `j` of the result
    /// takes the source lane named by the low three bits of index lane `j`.
    pub fn permute_var(self, idx: i32x8) -> (r: Self)
        ensures
            r@ == permvar_32(self@, idx@),
    {
        let i0 = mask7_exec(idx.lanes[0]);
        let i1 = mask7_exec(idx.lanes[1]);
        let i2 = mask7_exec(idx.lanes[2]);
        let i3 = mask7_exec(idx.lanes[3]);
        let i4 = mask7_exec(idx.lanes[4]);
        let i5 = mask7_exec(idx.lanes[5]);
        let i6 = mask7_exec(idx.lanes[6]);
        let i7 = mask7_exec(idx.lanes[7]);
        let a = &self.lanes;
        let r = Self {
            lanes: [a[i0], a[i1], a[i2], a[i3], a[i4], a[i5], a[i6], a[i7]],
        };
        proof {
            assert(r@ =~= permvar_32(self@, idx@));
        }
        r
    }

    /// Interleaves the low half of each 128-bit half of `self` and `b`:
    /// the result is `(a0, b0, a1, b1, a4, b4, a5, b5)`.
    pub fn unpacklo(self, b: f32x8) -> (r: Self)
        ensures
            r@ == seq![
                self@[0], b@[0], self@[1], b@[1], self@[4], b@[4], self@[5], b@[5],
            ],
    {
        let x = &self.lanes;
        let y = &b.lanes;
        let r = Self { lanes: [x[0], y[0], x[1], y[1], x[4], y[4], x[5], y[5]] };
        proof {
            assert(r@ =~= seq![
                self@[0], b@[0], self@[1], b@[1], self@[4], b@[4], self@[5], b@[5],
            ]);
        }
        r
    }

    /// Interleaves the high half of each 128-bit half of `self` and `b`:
    /// the result is `(a2, b2, a3, b3, a6, b6, a7, b7)`.
    pub fn unpackhi(self, b: f32x8) -> (r: Self)
        ensures
            r@ == seq![
                self@[2], b@[2], self@[3], b@[3], self@[6], b@[6], self@[7], b@[7],
            ],
    {
        let x = &self.lanes;
        let y = &b.lanes;
        let r = Self { lanes: [x[2], y[2], x[3], y[3], x[6], y[6], x[7], y[7]] };
        proof {
            assert(r@ =~= seq![
                self@[2], b@[2], self@[3], b@[3], self@[6], b@[6], self@[7], b@[7],
            ]);
        }
        r
    }

    /// Reads the first eight bit patterns of `a` into the lanes, lane 0 from
    /// `a[0]`.  The region must cover all eight lanes:
    /// the bound that the unverified checked tier tests at run time, failing
    /// fast on a shorter region, stands here as a precondition.
    pub fn from_slice(a: &[u32]) -> (r: Self)
        requires
            a@.len() >= 8,
        ensures
            r@ == a@.subrange(0, 8),
    {
        Self::from_slice_unchecked(a)
    }

    /// The unchecked tier of [`Self::from_slice`]: same reads, and the caller
    /// owes the same eight-element bound, stated as a precondition.
    pub fn from_slice_unchecked(a: &[u32]) -> (r: Self)
        requires
            a@.len() >= 8,
        ensures
            r@ == a@.subrange(0, 8),
    {
        let r = Self { lanes: [a[0], a[1], a[2], a[3], a[4], a[5], a[6], a[7]] };
        proof {
            assert(r@ =~= a@.subrange(0, 8));
        }
        r
    }

    /// Reads eight lanes from `a` at the element indices named by `idx`.  The
    /// hardware gather scales its indices by a compile-time byte width; a
    /// typed region fixes that width to the four-byte lane, so `SCALE` must be
    /// 4, and every index must name an element of the region — the caller's
    /// obligations of the raw gather, stated as preconditions.
    pub fn gather_unchecked<const SCALE: u32>(a: &[u32], idx: i32x8) -> (r: Self)
        requires
            SCALE == 4,
            forall|k: int| 0 <= k < 8 ==> 0 <= #[trigger] idx@[k] < a@.len(),
        ensures
            r@.len() == 8,
            forall|k: int| 0 <= k < 8 ==> r@[k] == a@[idx@[k] as int],
    {
        proof {
            assert(0 <= idx@[0] < a@.len());
            assert(0 <= idx@[1] < a@.len());
            assert(0 <= idx@[2] < a@.len());
            assert(0 <= idx@[3] < a@.len());
            assert(0 <= idx@[4] < a@.len());
            assert(0 <= idx@[5] < a@.len());
            assert(0 <= idx@[6] < a@.len());
            assert(0 <= idx@[7] < a@.len());
        }
        let i0 = idx.lanes[0] as usize;
        let i1 = idx.lanes[1] as usize;
        let i2 = idx.lanes[2] as usize;
        let i3 = idx.lanes[3] as usize;
        let i4 = idx.lanes[4] as usize;
        let i5 = idx.lanes[5] as usize;
        let i6 = idx.lanes[6] as usize;
        let i7 = idx.lanes[7] as usize;
        Self { lanes: [a[i0], a[i1], a[i2], a[i3], a[i4], a[i5], a[i6], a[i7]] }
    }

    /// Reinterprets the same 256 bits as eight 32-bit integer lanes; each
    /// float lane's bit pattern becomes the integer lane's two's-complement
    /// value.
    pub fn to_raw_i32(self) -> (r: i32x8)
        ensures
            r@ == u32s_as_i32s(self@),
    {
        let a = &self.lanes;
        let r = i32x8 {
            lanes: [
                a[0] as i32,
                a[1] as i32,
                a[2] as i32,
                a[3] as i32,
                a[4] as i32,
                a[5] as i32,
                a[6] as i32,
                a[7] as i32,
            ],
        };
        proof {
            assert(r@ =~= u32s_as_i32s(self@));
        }
        r
    }

    /// Reinterprets the same 256 bits as four 64-bit float lanes, given as
    /// their IEEE-754 bit patterns; no numeric conversion happens.
    pub fn to_raw_f64(self) -> (r: f64x4)
        ensures
            r@ == u32s_as_u64s(self@),
    {
        let a = &self.lanes;
        let r = f64x4 {
            lanes: [
                pack_u64(a[0], a[1]),
                pack_u64(a[2], a[3]),
                pack_u64(a[4], a[5]),
                pack_u64(a[6], a[7]),
            ],
        };
        proof {
            assert(r@ =~= u32s_as_u64s(self@));
        }
        r
    }

    /// Per-lane select between `self` and `other` under the compile-time
    /// pattern `IMM`: lane `j` comes from `other` when bit `j` of the pattern
    /// is set.
    pub fn blend<const IMM: u32>(self, other: Self) -> (r: Self)
        requires
            IMM < 256,
        ensures
            r@ == blend_lanes(self@, other@, IMM),
    {
        let a = &self.lanes;
        let b = &other.lanes;
        let r = Self {
            lanes: [
                if sel_bit_exec(IMM, 0) { b[0] } else { a[0] },
                if sel_bit_exec(IMM, 1) { b[1] } else { a[1] },
                if sel_bit_exec(IMM, 2) { b[2] } else { a[2] },
                if sel_bit_exec(IMM, 3) { b[3] } else { a[3] },
                if sel_bit_exec(IMM, 4) { b[4] } else { a[4] },
                if sel_bit_exec(IMM, 5) { b[5] } else { a[5] },
                if sel_bit_exec(IMM, 6) { b[6] } else { a[6] },
                if sel_bit_exec(IMM, 7) { b[7] } else { a[7] },
            ],
        };
        proof {
            assert(r@ =~= blend_lanes(self@, other@, IMM));
        }
        r
    }

    /// Writes the eight lane bit patterns to the first eight elements of `a`,
    /// lane 0 to `a[0]`; the rest of the region is untouched.  The region must cover all
    /// eight lanes: the bound that the unverified checked tier tests at run
    /// time, failing fast on a shorter region, stands here as a precondition.
    pub fn store(self, a: &mut [u32])
        requires
            old(a)@.len() >= 8,
        ensures
            final(a)@.len() == old(a)@.len(),
            forall|k: int| 0 <= k < 8 ==> final(a)@[k] == self@[k],
            forall|k: int| 8 <= k < final(a)@.len() ==> final(a)@[k] == old(a)@[k],
    {
        self.store_unchecked(a)
    }

    /// The unchecked tier of [`Self::store`]: same writes, and the caller owes
    /// the same eight-element bound, stated as a precondition.
    pub fn store_unchecked(self, a: &mut [u32])
        requires
            old(a)@.len() >= 8,
        ensures
            final(a)@.len() == old(a)@.len(),
            forall|k: int| 0 <= k < 8 ==> final(a)@[k] == self@[k],
            forall|k: int| 8 <= k < final(a)@.len() ==> final(a)@[k] == old(a)@[k],
    {
        a[0] = self.lanes[0];
        a[1] = self.lanes[1];
        a[2] = self.lanes[2];
        a[3] = self.lanes[3];
        a[4] = self.lanes[4];
        a[5] = self.lanes[5];
        a[6] = self.lanes[6];
        a[7] = self.lanes[7];
    }

    /// Reads the lane at the compile-time index `INDEX` as its bit pattern:
    /// the register has no direct float-lane extraction, so a lane leaves as
    /// the unsigned integer holding its bits.
    pub fn extract<const INDEX: u32>(self) -> (r: u32)
        requires
            INDEX < 8,
        ensures
            r == self@[INDEX as int],
    {
        self.lanes[INDEX as usize]
    }
}

} // verus!
