//! A typed model of fixed-width hardware vector registers.
//!
//! Each type in the family wraps the lanes of one 128-bit or 256-bit vector
//! register as plain scalars: integer vectors hold their lane values directly,
//! and the float vectors hold the IEEE-754 bit pattern of each lane as an
//! unsigned integer of the lane width.  Every operation states its exact
//! lane-level behaviour in its contract, and the laws of the family — that
//! bit reinterpretations between same-width types invert each other, and that
//! identity blend and permute patterns change nothing — are proved in
//! [`laws`].

mod lanebits;
mod laws;
mod simd_f32;
mod simd_f64;
mod simd_i16;
mod simd_i32;
mod simd_i64;

pub use lanebits::blend_lanes;
pub use laws::lemma_blend_identity;
pub use laws::lemma_perm4_identity;
pub use laws::lemma_perm_in_half_32_identity;
pub use laws::lemma_perm_in_half_64_identity;
pub use laws::lemma_permvar_32_identity;
pub use laws::lemma_permvar_64_identity;
pub use laws::lemma_roundtrip_f32_f64;
pub use laws::lemma_roundtrip_f32_i32;
pub use laws::lemma_roundtrip_f64_f32;
pub use laws::lemma_roundtrip_i16_i32;
pub use laws::lemma_roundtrip_i16_i64;
pub use laws::lemma_roundtrip_i32_f32;
pub use laws::lemma_roundtrip_i32_i16;
pub use laws::lemma_roundtrip_i32_i64;
pub use laws::lemma_roundtrip_i64_i16;
pub use laws::lemma_roundtrip_i64_i32;
pub use lanebits::i16s_as_i32s;
pub use lanebits::i16s_as_i64s;
pub use lanebits::i32s_as_i16s;
pub use lanebits::i32s_as_i64s;
pub use lanebits::i32s_as_u32s;
pub use lanebits::i64s_as_i16s;
pub use lanebits::i64s_as_u32s;
pub use lanebits::packs_lanes;
pub use lanebits::perm4_lanes;
pub use lanebits::perm_in_half_32;
pub use lanebits::perm_in_half_64;
pub use lanebits::permvar_32;
pub use lanebits::permvar_64;
pub use lanebits::sat_i16;
pub use lanebits::u32s_as_i32s;
pub use lanebits::u32s_as_u64s;
pub use lanebits::u64s_as_i32s;
pub use lanebits::u64s_as_u32s;
pub use simd_f32::f32x8;
pub use simd_f64::f64x4;
pub use simd_i16::i16x16;
pub use simd_i16::i16x8;
pub use simd_i32::i32x4;
pub use simd_i32::i32x8;
pub use simd_i64::i64x4;
