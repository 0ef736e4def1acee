//! The vector of four 64-bit float lanes in a 256-bit register, modelled by
//! the IEEE-754 bit pattern of each lane.
//!
//! As with the 32-bit float vector, every operation here moves, selects or
//! reinterprets lane bits and is exact on the bit patterns; the float
//! arithmetic of the type (addition, multiplication, horizontal add, min and
//! max) interprets lanes as IEEE-754 numbers and lives with the hardware
//! entry points, outside the verified library.

use vstd::prelude::*;
use crate::lanebits::blend_lanes;
use crate::lanebits::bit1_exec;
use crate::lanebits::perm4_lanes;
use crate::lanebits::perm_in_half_64;
use crate::lanebits::permvar_64;
use crate::lanebits::sel_bit_exec;
use crate::lanebits::sel1_exec;
use crate::lanebits::sel2_exec;
use crate::lanebits::split_hi_u32;
use crate::lanebits::split_lo_u32;
use crate::lanebits::u64s_as_i32s;
use crate::lanebits::u64s_as_u32s;
use crate::simd_f32::f32x8;
use crate::simd_i32::i32x8;

verus! {

/// Four 64-bit float lanes in one 256-bit register, each lane held as its
/// IEEE-754 bit pattern.
#[allow(non_camel_case_types)]
#[derive(Debug, Copy, Clone)]
pub struct f64x4 {
    pub lanes: [u64; 4],
}

impl View for f64x4 {
    type V = Seq<u64>;

    open spec fn view(&self) -> Seq<u64> {
        self.lanes@
    }
}

impl f64x4 {
    /// Builds a vector with bit pattern `vk` in lane `k - 1` (lane 0 first).
    pub fn new(v1: u64, v2: u64, v3: u64, v4: u64) -> (r: Self)
        ensures
            r@ == seq![v1, v2, v3, v4],
    {
        let r = Self { lanes: [v1, v2, v3, v4] };
        proof {
            assert(r@ =~= seq![v1, v2, v3, v4]);
        }
        r
    }

    /// Broadcasts one bit pattern into all four lanes.
    pub fn splat(v: u64) -> (r: Self)
        ensures
            r@.len() == 4,
            forall|k: int| 0 <= k < 4 ==> r@[k] == v,
    {
        Self { lanes: [v; 4] }
    }

    /// Reorders the lanes of each 128-bit half independently under the
    /// compile-time pattern `IMM`: lane `j` takes the element of its own half
    /// named by bit `j` of the pattern.
    pub fn permute<const IMM: u32>(self) -> (r: Self)
        requires
            IMM < 16,
        ensures
            r@ == perm_in_half_64(self@, IMM),
    {
        let s0 = sel1_exec(IMM, 0);
        let s1 = sel1_exec(IMM, 1);
        let s2 = sel1_exec(IMM, 2);
        let s3 = sel1_exec(IMM, 3);
        let a = &self.lanes;
        let r = Self {
            lanes: [a[s0 as usize], a[s1 as usize], a[2 + s2 as usize], a[2 + s3 as usize]],
        };
        proof {
            assert(r@ =~= perm_in_half_64(self@, IMM));
        }
        r
    }

    /// Reorders the four lanes across the whole register under the
    /// compile-time pattern `IMM`: lane `j` of the result is the source lane
    /// named by the `j`-th two-bit field.
    pub fn permute4x64<const IMM: u32>(self) -> (r: Self)
        requires
            IMM < 256,
        ensures
            r@ == perm4_lanes(self@, IMM),
    {
        let s0 = sel2_exec(IMM, 0);
        let s1 = sel2_exec(IMM, 1);
        let s2 = sel2_exec(IMM, 2);
        let s3 = sel2_exec(IMM, 3);
        let a = &self.lanes;
        let r = Self {
            lanes: [a[s0 as usize], a[s1 as usize], a[s2 as usize], a[s3 as usize]],
        };
        proof {
            assert(r@ =~= perm4_lanes(self@, IMM));
        }
        r
    }

    /// Variable in-half permute driven by an index vector read as four 64-bit
    /// controls: lane `j` takes the element of its own 128-bit half named by
    /// bit 1 of index lane `2 j`, the low 32 bits of control `j`.
    pub fn permute_var(self, idx: i32x8) -> (r: Self)
        ensures
            r@ == permvar_64(self@, idx@),
    {
        let s0 = bit1_exec(idx.lanes[0]);
        let s1 = bit1_exec(idx.lanes[2]);
        let s2 = bit1_exec(idx.lanes[4]);
        let s3 = bit1_exec(idx.lanes[6]);
        let a = &self.lanes;
        let r = Self { lanes: [a[s0], a[s1], a[2 + s2], a[2 + s3]] };
        proof {
            assert(r@ =~= permvar_64(self@, idx@));
        }
        r
    }

    /// Reads the first four bit patterns of `a` into the lanes, lane 0 from
    /// `a[0]`.  The region must cover all four
    /// lanes, as a precondition: the raw tier reads unchecked.
    pub fn from_slice(a: &[u64]) -> (r: Self)
        requires
            a@.len() >= 4,
        ensures
            r@ == a@.subrange(0, 4),
    {
        let r = Self { lanes: [a[0], a[1], a[2], a[3]] };
        proof {
            assert(r@ =~= a@.subrange(0, 4));
        }
        r
    }

    /// Reinterprets the same 256 bits as eight 32-bit integer lanes.
    pub fn to_raw_i32(self) -> (r: i32x8)
        ensures
            r@ == u64s_as_i32s(self@),
    {
        let a = &self.lanes;
        let r = i32x8 {
            lanes: [
                split_lo_u32(a[0]) as i32,
                split_hi_u32(a[0]) as i32,
                split_lo_u32(a[1]) as i32,
                split_hi_u32(a[1]) as i32,
                split_lo_u32(a[2]) as i32,
                split_hi_u32(a[2]) as i32,
                split_lo_u32(a[3]) as i32,
                split_hi_u32(a[3]) as i32,
            ],
        };
        proof {
            assert(r@ =~= u64s_as_i32s(self@));
        }
        r
    }

    /// Reinterprets the same 256 bits as eight 32-bit float lanes, given as
    /// their IEEE-754 bit patterns; no numeric conversion happens.
    pub fn to_raw_f32(self) -> (r: f32x8)
        ensures
            r@ == u64s_as_u32s(self@),
    {
        let a = &self.lanes;
        let r = f32x8 {
            lanes: [
                split_lo_u32(a[0]),
                split_hi_u32(a[0]),
                split_lo_u32(a[1]),
                split_hi_u32(a[1]),
                split_lo_u32(a[2]),
                split_hi_u32(a[2]),
                split_lo_u32(a[3]),
                split_hi_u32(a[3]),
            ],
        };
        proof {
            assert(r@ =~= u64s_as_u32s(self@));
        }
        r
    }

    /// Per-lane select between `self` and `other` under the compile-time
    /// pattern `IMM`: lane `j` comes from `other` when bit `j` of the pattern
    /// is set.
    pub fn blend<const IMM: u32>(self, other: Self) -> (r: Self)
        requires
            IMM < 16,
        ensures
            r@ == blend_lanes(self@, other@, IMM),
    {
        let a = &self.lanes;
        let b = &other.lanes;
        let r = Self {
            lanes: [
                if sel_bit_exec(IMM, 0) { b[0] } else { a[0] },
                if sel_bit_exec(IMM, 1) { b[1] } else { a[1] },
                if sel_bit_exec(IMM, 2) { b[2] } else { a[2] },
                if sel_bit_exec(IMM, 3) { b[3] } else { a[3] },
            ],
        };
        proof {
            assert(r@ =~= blend_lanes(self@, other@, IMM));
        }
        r
    }

    /// Writes the four lane bit patterns to the first four elements of `a`,
    /// lane 0 to `a[0]`; the rest of the region is untouched.  The region must cover all
    /// four lanes, as a precondition: the raw tier writes unchecked.
    pub fn store(self, a: &mut [u64])
        requires
            old(a)@.len() >= 4,
        ensures
            final(a)@.len() == old(a)@.len(),
            forall|k: int| 0 <= k < 4 ==> final(a)@[k] == self@[k],
            forall|k: int| 4 <= k < final(a)@.len() ==> final(a)@[k] == old(a)@[k],
    {
        a[0] = self.lanes[0];
        a[1] = self.lanes[1];
        a[2] = self.lanes[2];
        a[3] = self.lanes[3];
    }

    /// Reads the lane at the compile-time index `INDEX` as its bit pattern:
    /// the register has no direct float-lane extraction, so a lane leaves as
    /// the unsigned integer holding its bits.
    pub fn extract<const INDEX: u32>(self) -> (r: u64)
        requires
            INDEX < 4,
        ensures
            r == self@[INDEX as int],
    {
        self.lanes[INDEX as usize]
    }
}

} // verus!
