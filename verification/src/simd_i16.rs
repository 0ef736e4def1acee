//! Vectors of 16-bit integer lanes: sixteen lanes in a 256-bit register and
//! eight lanes in a 128-bit register.

use vstd::prelude::*;
use crate::lanebits::blend_lanes;
use crate::lanebits::i16s_as_i32s;
use crate::lanebits::i16s_as_i64s;
use crate::lanebits::pack_i32;
use crate::lanebits::pack_i64;
use crate::lanebits::sel_bit_exec;
use crate::simd_i32::i32x8;
use crate::simd_i64::i64x4;
use vstd::wrapping::i16_specs;

verus! {

/// Sixteen 16-bit integer lanes in one 256-bit register.
#[allow(non_camel_case_types)]
#[derive(Debug, Copy, Clone)]
pub struct i16x16 {
    pub lanes: [i16; 16],
}

impl View for i16x16 {
    type V = Seq<i16>;

    open spec fn view(&self) -> Seq<i16> {
        self.lanes@
    }
}

impl i16x16 {
    /// Builds a vector with scalar `vk` in lane `k - 1` (lane 0 first).
    pub fn new(
        v1: i16,
        v2: i16,
        v3: i16,
        v4: i16,
        v5: i16,
        v6: i16,
        v7: i16,
        v8: i16,
        v9: i16,
        v10: i16,
        v11: i16,
        v12: i16,
        v13: i16,
        v14: i16,
        v15: i16,
        v16: i16,
    ) -> (r: Self)
        ensures
            r@ == seq![v1, v2, v3, v4, v5, v6, v7, v8, v9, v10, v11, v12, v13, v14, v15, v16],
    {
        let r = Self {
            lanes: [v1, v2, v3, v4, v5, v6, v7, v8, v9, v10, v11, v12, v13, v14, v15, v16],
        };
        proof {
            assert(r@ =~= seq![
                v1, v2, v3, v4, v5, v6, v7, v8, v9, v10, v11, v12, v13, v14, v15, v16,
            ]);
        }
        r
    }

    /// Broadcasts one scalar into all sixteen lanes.
    pub fn splat(v: i16) -> (r: Self)
        ensures
            r@.len() == 16,
            forall|k: int| 0 <= k < 16 ==> r@[k] == v,
    {
        Self { lanes: [v; 16] }
    }

    /// Reads the first sixteen elements of `a` into the lanes, lane 0 from
    /// `a[0]`.  The region must cover all sixteen
    /// lanes: the bound that the unverified checked tier tests at run time,
    /// failing fast on a shorter region, stands here as a precondition.
    pub fn from_slice(a: &[i16]) -> (r: Self)
        requires
            a@.len() >= 16,
        ensures
            r@ == a@.subrange(0, 16),
    {
        Self::from_slice_unchecked(a)
    }

    /// The unchecked tier of [`Self::from_slice`]: same reads, and the caller
    /// owes the same sixteen-element bound, stated as a precondition.
    pub fn from_slice_unchecked(a: &[i16]) -> (r: Self)
        requires
            a@.len() >= 16,
        ensures
            r@ == a@.subrange(0, 16),
    {
        let r = Self {
            lanes: [
                a[0], a[1], a[2], a[3], a[4], a[5], a[6], a[7], a[8], a[9], a[10], a[11], a[12],
                a[13], a[14], a[15],
            ],
        };
        proof {
            assert(r@ =~= a@.subrange(0, 16));
        }
        r
    }

    /// Per-lane select between `self` and `other` under the compile-time
    /// pattern `IMM`: lane `j` comes from `other` when bit `j mod 8` of the
    /// pattern is set.  The same eight-bit pattern serves both 128-bit halves.
    pub fn blend<const IMM: u32>(self, other: Self) -> (r: Self)
        requires
            IMM < 256,
        ensures
            r@ == blend_lanes(self@, other@, IMM),
    {
        let a = &self.lanes;
        let b = &other.lanes;
        let r = Self {
            lanes: [
                if sel_bit_exec(IMM, 0) { b[0] } else { a[0] },
                if sel_bit_exec(IMM, 1) { b[1] } else { a[1] },
                if sel_bit_exec(IMM, 2) { b[2] } else { a[2] },
                if sel_bit_exec(IMM, 3) { b[3] } else { a[3] },
                if sel_bit_exec(IMM, 4) { b[4] } else { a[4] },
                if sel_bit_exec(IMM, 5) { b[5] } else { a[5] },
                if sel_bit_exec(IMM, 6) { b[6] } else { a[6] },
                if sel_bit_exec(IMM, 7) { b[7] } else { a[7] },
                if sel_bit_exec(IMM, 0) { b[8] } else { a[8] },
                if sel_bit_exec(IMM, 1) { b[9] } else { a[9] },
                if sel_bit_exec(IMM, 2) { b[10] } else { a[10] },
                if sel_bit_exec(IMM, 3) { b[11] } else { a[11] },
                if sel_bit_exec(IMM, 4) { b[12] } else { a[12] },
                if sel_bit_exec(IMM, 5) { b[13] } else { a[13] },
                if sel_bit_exec(IMM, 6) { b[14] } else { a[14] },
                if sel_bit_exec(IMM, 7) { b[15] } else { a[15] },
            ],
        };
        proof {
            assert(r@ =~= blend_lanes(self@, other@, IMM));
        }
        r
    }

    /// Reads the lane at the compile-time index `IDX`.
    pub fn get<const IDX: u32>(self) -> (r: i16)
        requires
            IDX < 16,
        ensures
            r == self@[IDX as int],
    {
        self.lanes[IDX as usize]
    }

    /// Returns a copy of the vector with lane `IDX` replaced by `v`.
    pub fn set<const IDX: u32>(self, v: i16) -> (r: Self)
        requires
            IDX < 16,
        ensures
            r@ == self@.update(IDX as int, v),
    {
        let mut lanes = self.lanes;
        lanes[IDX as usize] = v;
        Self { lanes }
    }

    /// Reinterprets the same 256 bits as eight 32-bit integer lanes.
    pub fn to_raw_i32(self) -> (r: i32x8)
        ensures
            r@ == i16s_as_i32s(self@),
    {
        let a = &self.lanes;
        let r = i32x8 {
            lanes: [
                pack_i32(a[0], a[1]),
                pack_i32(a[2], a[3]),
                pack_i32(a[4], a[5]),
                pack_i32(a[6], a[7]),
                pack_i32(a[8], a[9]),
                pack_i32(a[10], a[11]),
                pack_i32(a[12], a[13]),
                pack_i32(a[14], a[15]),
            ],
        };
        proof {
            assert(r@ =~= i16s_as_i32s(self@));
        }
        r
    }

    /// Reinterprets the same 256 bits as four 64-bit integer lanes.
    pub fn to_raw_i64(self) -> (r: i64x4)
        ensures
            r@ == i16s_as_i64s(self@),
    {
        let a = &self.lanes;
        let r = i64x4 {
            lanes: [
                pack_i64(pack_i32(a[0], a[1]), pack_i32(a[2], a[3])),
                pack_i64(pack_i32(a[4], a[5]), pack_i32(a[6], a[7])),
                pack_i64(pack_i32(a[8], a[9]), pack_i32(a[10], a[11])),
                pack_i64(pack_i32(a[12], a[13]), pack_i32(a[14], a[15])),
            ],
        };
        proof {
            assert(r@ =~= i16s_as_i64s(self@));
        }
        r
    }

    /// Writes the sixteen lanes to the first sixteen elements of `a`, lane 0
    /// to `a[0]`; the rest of the region is untouched.  The region must cover
    /// all sixteen lanes: the bound that the unverified checked tier tests at
    /// run time, failing fast on a shorter region, stands here as a
    /// precondition.
    pub fn store(self, a: &mut [i16])
        requires
            old(a)@.len() >= 16,
        ensures
            final(a)@.len() == old(a)@.len(),
            forall|k: int| 0 <= k < 16 ==> final(a)@[k] == self@[k],
            forall|k: int| 16 <= k < final(a)@.len() ==> final(a)@[k] == old(a)@[k],
    {
        self.store_unchecked(a)
    }

    /// The unchecked tier of [`Self::store`]: same writes, and the caller owes
    /// the same sixteen-element bound, stated as a precondition.
    pub fn store_unchecked(self, a: &mut [i16])
        requires
            old(a)@.len() >= 16,
        ensures
            final(a)@.len() == old(a)@.len(),
            forall|k: int| 0 <= k < 16 ==> final(a)@[k] == self@[k],
            forall|k: int| 16 <= k < final(a)@.len() ==> final(a)@[k] == old(a)@[k],
    {
        a[0] = self.lanes[0];
        a[1] = self.lanes[1];
        a[2] = self.lanes[2];
        a[3] = self.lanes[3];
        a[4] = self.lanes[4];
        a[5] = self.lanes[5];
        a[6] = self.lanes[6];
        a[7] = self.lanes[7];
        a[8] = self.lanes[8];
        a[9] = self.lanes[9];
        a[10] = self.lanes[10];
        a[11] = self.lanes[11];
        a[12] = self.lanes[12];
        a[13] = self.lanes[13];
        a[14] = self.lanes[14];
        a[15] = self.lanes[15];
    }

    /// Reads the lane at the compile-time index `INDEX`; the same read as
    /// [`Self::get`] under the hardware's other extraction name.
    pub fn extract<const INDEX: u32>(self) -> (r: i16)
        requires
            INDEX < 16,
        ensures
            r == self@[INDEX as int],
    {
        self.lanes[INDEX as usize]
    }

    /// Lane-wise wrapping addition.
    pub fn add(self, rhs: Self) -> (r: Self)
        ensures
            r@.len() == 16,
            forall|k: int| 0 <= k < 16 ==> r@[k] == i16_specs::wrapping_add(self@[k], rhs@[k]),
    {
        let a = &self.lanes;
        let b = &rhs.lanes;
        Self {
            lanes: [
                a[0].wrapping_add(b[0]),
                a[1].wrapping_add(b[1]),
                a[2].wrapping_add(b[2]),
                a[3].wrapping_add(b[3]),
                a[4].wrapping_add(b[4]),
                a[5].wrapping_add(b[5]),
                a[6].wrapping_add(b[6]),
                a[7].wrapping_add(b[7]),
                a[8].wrapping_add(b[8]),
                a[9].wrapping_add(b[9]),
                a[10].wrapping_add(b[10]),
                a[11].wrapping_add(b[11]),
                a[12].wrapping_add(b[12]),
                a[13].wrapping_add(b[13]),
                a[14].wrapping_add(b[14]),
                a[15].wrapping_add(b[15]),
            ],
        }
    }

    /// Lane-wise wrapping subtraction.
    pub fn sub(self, rhs: Self) -> (r: Self)
        ensures
            r@.len() == 16,
            forall|k: int| 0 <= k < 16 ==> r@[k] == i16_specs::wrapping_sub(self@[k], rhs@[k]),
    {
        let a = &self.lanes;
        let b = &rhs.lanes;
        Self {
            lanes: [
                a[0].wrapping_sub(b[0]),
                a[1].wrapping_sub(b[1]),
                a[2].wrapping_sub(b[2]),
                a[3].wrapping_sub(b[3]),
                a[4].wrapping_sub(b[4]),
                a[5].wrapping_sub(b[5]),
                a[6].wrapping_sub(b[6]),
                a[7].wrapping_sub(b[7]),
                a[8].wrapping_sub(b[8]),
                a[9].wrapping_sub(b[9]),
                a[10].wrapping_sub(b[10]),
                a[11].wrapping_sub(b[11]),
                a[12].wrapping_sub(b[12]),
                a[13].wrapping_sub(b[13]),
                a[14].wrapping_sub(b[14]),
                a[15].wrapping_sub(b[15]),
            ],
        }
    }

    /// Lane-wise multiplication keeping the low 16 bits of each product.
    pub fn mul(self, rhs: Self) -> (r: Self)
        ensures
            r@.len() == 16,
            forall|k: int| 0 <= k < 16 ==> r@[k] == i16_specs::wrapping_mul(self@[k], rhs@[k]),
    {
        let a = &self.lanes;
        let b = &rhs.lanes;
        Self {
            lanes: [
                a[0].wrapping_mul(b[0]),
                a[1].wrapping_mul(b[1]),
                a[2].wrapping_mul(b[2]),
                a[3].wrapping_mul(b[3]),
                a[4].wrapping_mul(b[4]),
                a[5].wrapping_mul(b[5]),
                a[6].wrapping_mul(b[6]),
                a[7].wrapping_mul(b[7]),
                a[8].wrapping_mul(b[8]),
                a[9].wrapping_mul(b[9]),
                a[10].wrapping_mul(b[10]),
                a[11].wrapping_mul(b[11]),
                a[12].wrapping_mul(b[12]),
                a[13].wrapping_mul(b[13]),
                a[14].wrapping_mul(b[14]),
                a[15].wrapping_mul(b[15]),
            ],
        }
    }

    /// Lane-wise bitwise AND.
    pub fn bitand(self, rhs: Self) -> (r: Self)
        ensures
            r@.len() == 16,
            forall|k: int| 0 <= k < 16 ==> r@[k] == self@[k] & rhs@[k],
    {
        let a = &self.lanes;
        let b = &rhs.lanes;
        Self {
            lanes: [
                a[0] & b[0],
                a[1] & b[1],
                a[2] & b[2],
                a[3] & b[3],
                a[4] & b[4],
                a[5] & b[5],
                a[6] & b[6],
                a[7] & b[7],
                a[8] & b[8],
                a[9] & b[9],
                a[10] & b[10],
                a[11] & b[11],
                a[12] & b[12],
                a[13] & b[13],
                a[14] & b[14],
                a[15] & b[15],
            ],
        }
    }

    /// Lane-wise bitwise OR.
    pub fn bitor(self, rhs: Self) -> (r: Self)
        ensures
            r@.len() == 16,
            forall|k: int| 0 <= k < 16 ==> r@[k] == self@[k] | rhs@[k],
    {
        let a = &self.lanes;
        let b = &rhs.lanes;
        Self {
            lanes: [
                a[0] | b[0],
                a[1] | b[1],
                a[2] | b[2],
                a[3] | b[3],
                a[4] | b[4],
                a[5] | b[5],
                a[6] | b[6],
                a[7] | b[7],
                a[8] | b[8],
                a[9] | b[9],
                a[10] | b[10],
                a[11] | b[11],
                a[12] | b[12],
                a[13] | b[13],
                a[14] | b[14],
                a[15] | b[15],
            ],
        }
    }
}

/// Eight 16-bit integer lanes in one 128-bit register.
#[allow(non_camel_case_types)]
#[derive(Debug, Copy, Clone)]
pub struct i16x8 {
    pub lanes: [i16; 8],
}

impl View for i16x8 {
    type V = Seq<i16>;

    open spec fn view(&self) -> Seq<i16> {
        self.lanes@
    }
}

impl i16x8 {
    /// Builds a vector with scalar `vk` in lane `k - 1` (lane 0 first).
    pub fn new(v1: i16, v2: i16, v3: i16, v4: i16, v5: i16, v6: i16, v7: i16, v8: i16) -> (r: Self)
        ensures
            r@ == seq![v1, v2, v3, v4, v5, v6, v7, v8],
    {
        let r = Self { lanes: [v1, v2, v3, v4, v5, v6, v7, v8] };
        proof {
            assert(r@ =~= seq![v1, v2, v3, v4, v5, v6, v7, v8]);
        }
        r
    }

    /// Reads the lane at the compile-time index `IDX`.
    pub fn get<const IDX: u32>(self) -> (r: i16)
        requires
            IDX < 8,
        ensures
            r == self@[IDX as int],
    {
        self.lanes[IDX as usize]
    }

    /// Returns a copy of the vector with lane `IDX` replaced by `v`.
    pub fn set<const IDX: u32>(self, v: i16) -> (r: Self)
        requires
            IDX < 8,
        ensures
            r@ == self@.update(IDX as int, v),
    {
        let mut lanes = self.lanes;
        lanes[IDX as usize] = v;
        Self { lanes }
    }

    /// Lane-wise wrapping addition.
    pub fn add(self, rhs: Self) -> (r: Self)
        ensures
            r@.len() == 8,
            forall|k: int| 0 <= k < 8 ==> r@[k] == i16_specs::wrapping_add(self@[k], rhs@[k]),
    {
        let a = &self.lanes;
        let b = &rhs.lanes;
        Self {
            lanes: [
                a[0].wrapping_add(b[0]),
                a[1].wrapping_add(b[1]),
                a[2].wrapping_add(b[2]),
                a[3].wrapping_add(b[3]),
                a[4].wrapping_add(b[4]),
                a[5].wrapping_add(b[5]),
                a[6].wrapping_add(b[6]),
                a[7].wrapping_add(b[7]),
            ],
        }
    }

    /// Lane-wise wrapping subtraction.
    pub fn sub(self, rhs: Self) -> (r: Self)
        ensures
            r@.len() == 8,
            forall|k: int| 0 <= k < 8 ==> r@[k] == i16_specs::wrapping_sub(self@[k], rhs@[k]),
    {
        let a = &self.lanes;
        let b = &rhs.lanes;
        Self {
            lanes: [
                a[0].wrapping_sub(b[0]),
                a[1].wrapping_sub(b[1]),
                a[2].wrapping_sub(b[2]),
                a[3].wrapping_sub(b[3]),
                a[4].wrapping_sub(b[4]),
                a[5].wrapping_sub(b[5]),
                a[6].wrapping_sub(b[6]),
                a[7].wrapping_sub(b[7]),
            ],
        }
    }

    /// Lane-wise multiplication keeping the low 16 bits of each product.
    pub fn mul(self, rhs: Self) -> (r: Self)
        ensures
            r@.len() == 8,
            forall|k: int| 0 <= k < 8 ==> r@[k] == i16_specs::wrapping_mul(self@[k], rhs@[k]),
    {
        let a = &self.lanes;
        let b = &rhs.lanes;
        Self {
            lanes: [
                a[0].wrapping_mul(b[0]),
                a[1].wrapping_mul(b[1]),
                a[2].wrapping_mul(b[2]),
                a[3].wrapping_mul(b[3]),
                a[4].wrapping_mul(b[4]),
                a[5].wrapping_mul(b[5]),
                a[6].wrapping_mul(b[6]),
                a[7].wrapping_mul(b[7]),
            ],
        }
    }
}

} // verus!
