use simd_lanes::f32x8;
use simd_lanes::f64x4;
use simd_lanes::i32x8;

fn f32_bits(x: f32) -> u32 {
    x.to_bits()
}

fn f64_bits(x: f64) -> u64 {
    x.to_bits()
}

#[test]
fn f32x8_new_then_extract_returns_each_bit_pattern() {
    let nan = f32_bits(f32::NAN);
    let quiet_nan = 0x7FC0_0001u32;
    let v = f32x8::new(
        f32_bits(0.0),
        f32_bits(-0.0),
        f32_bits(1.5),
        f32_bits(f32::INFINITY),
        f32_bits(f32::NEG_INFINITY),
        nan,
        quiet_nan,
        f32_bits(-2.25),
    );
    assert_eq!(v.extract::<0>(), 0);
    assert_eq!(v.extract::<1>(), 0x8000_0000);
    assert_eq!(v.extract::<2>(), f32_bits(1.5));
    assert_eq!(v.extract::<3>(), f32_bits(f32::INFINITY));
    assert_eq!(v.extract::<4>(), f32_bits(f32::NEG_INFINITY));
    assert_eq!(v.extract::<5>(), nan);
    assert_eq!(v.extract::<6>(), quiet_nan);
    assert_eq!(v.extract::<7>(), f32_bits(-2.25));
}

#[test]
fn f64x4_new_then_extract_returns_each_bit_pattern() {
    let nan = f64_bits(f64::NAN);
    let v = f64x4::new(f64_bits(-0.0), f64_bits(3.75), nan, f64_bits(f64::NEG_INFINITY));
    assert_eq!(v.extract::<0>(), 0x8000_0000_0000_0000);
    assert_eq!(v.extract::<1>(), f64_bits(3.75));
    assert_eq!(v.extract::<2>(), nan);
    assert_eq!(v.extract::<3>(), f64_bits(f64::NEG_INFINITY));
}

#[test]
fn f32_i32_raw_cast_round_trips_nan_bits() {
    let odd_nan = 0xFFC1_2345u32;
    let v = f32x8::new(odd_nan, 1, 2, 3, 4, 5, 6, 0x8000_0000);
    let back = v.to_raw_i32().to_raw_f32();
    assert_eq!(back.extract::<0>(), odd_nan);
    assert_eq!(back.extract::<1>(), 1);
    assert_eq!(back.extract::<7>(), 0x8000_0000);
}

#[test]
fn i32_f32_raw_cast_round_trips_negative_values() {
    let v = i32x8::new(-1, i32::MIN, i32::MAX, 0, 7, -7, 100, -100);
    let back = v.to_raw_f32().to_raw_i32();
    assert_eq!(back.get::<0>(), -1);
    assert_eq!(back.get::<1>(), i32::MIN);
    assert_eq!(back.get::<2>(), i32::MAX);
    assert_eq!(back.get::<5>(), -7);
}

#[test]
fn f32_f64_raw_cast_round_trips_every_bit() {
    let v = f32x8::new(
        0xDEAD_BEEF,
        0x0000_0001,
        0xFFFF_FFFF,
        0x8000_0000,
        f32_bits(f32::NAN),
        0,
        f32_bits(1.0),
        0x7F80_0001,
    );
    let back = v.to_raw_f64().to_raw_f32();
    assert_eq!(back.extract::<0>(), 0xDEAD_BEEF);
    assert_eq!(back.extract::<1>(), 0x0000_0001);
    assert_eq!(back.extract::<2>(), 0xFFFF_FFFF);
    assert_eq!(back.extract::<3>(), 0x8000_0000);
    assert_eq!(back.extract::<7>(), 0x7F80_0001);
}

#[test]
fn f32_f64_raw_cast_packs_pairs_little_endian() {
    let v = f32x8::new(0x1111_2222, 0x3333_4444, 0, 0, 0, 0, 0, 0);
    let w = v.to_raw_f64();
    assert_eq!(w.extract::<0>(), 0x3333_4444_1111_2222u64);
}

#[test]
fn f64_i32_raw_cast_splits_lanes_little_endian() {
    let v = f64x4::new(0xAAAA_BBBB_CCCC_DDDDu64, 0, 0, 0);
    let w = v.to_raw_i32();
    assert_eq!(w.get::<0>() as u32, 0xCCCC_DDDD);
    assert_eq!(w.get::<1>() as u32, 0xAAAA_BBBB);
}

#[test]
fn i64_f32_raw_cast_splits_lanes_little_endian() {
    let v = simd_lanes::i64x4::new(0x0123_4567_89AB_CDEFi64, 0, 0, 0);
    let w = v.to_raw_f32();
    assert_eq!(w.extract::<0>(), 0x89AB_CDEF);
    assert_eq!(w.extract::<1>(), 0x0123_4567);
}

#[test]
fn f32_permute_reorders_within_each_half() {
    let v = f32x8::new(10, 11, 12, 13, 20, 21, 22, 23);
    let id = v.permute::<0xE4>();
    assert_eq!(id.extract::<0>(), 10);
    assert_eq!(id.extract::<7>(), 23);
    let rev = v.permute::<0b00011011>();
    assert_eq!(rev.extract::<0>(), 13);
    assert_eq!(rev.extract::<1>(), 12);
    assert_eq!(rev.extract::<2>(), 11);
    assert_eq!(rev.extract::<3>(), 10);
    assert_eq!(rev.extract::<4>(), 23);
    assert_eq!(rev.extract::<5>(), 22);
    assert_eq!(rev.extract::<6>(), 21);
    assert_eq!(rev.extract::<7>(), 20);
}

#[test]
fn f32_permute4x64_moves_adjacent_pairs() {
    let v = f32x8::new(0, 1, 2, 3, 4, 5, 6, 7);
    let id = v.permute4x64::<0xE4>();
    assert_eq!(id.extract::<0>(), 0);
    assert_eq!(id.extract::<7>(), 7);
    let swapped = v.permute4x64::<0b01001110>();
    assert_eq!(swapped.extract::<0>(), 4);
    assert_eq!(swapped.extract::<1>(), 5);
    assert_eq!(swapped.extract::<2>(), 6);
    assert_eq!(swapped.extract::<3>(), 7);
    assert_eq!(swapped.extract::<4>(), 0);
    assert_eq!(swapped.extract::<5>(), 1);
    assert_eq!(swapped.extract::<6>(), 2);
    assert_eq!(swapped.extract::<7>(), 3);
}

#[test]
fn f32_permute_var_identity_and_reversal() {
    let v = f32x8::new(0, 10, 20, 30, 40, 50, 60, 70);
    let id = v.permute_var(i32x8::new(0, 1, 2, 3, 4, 5, 6, 7));
    assert_eq!(id.extract::<0>(), 0);
    assert_eq!(id.extract::<3>(), 30);
    assert_eq!(id.extract::<7>(), 70);
    let rev = v.permute_var(i32x8::new(7, 6, 5, 4, 3, 2, 1, 0));
    assert_eq!(rev.extract::<0>(), 70);
    assert_eq!(rev.extract::<7>(), 0);
    // only the low three bits of each index matter
    let wrapped = v.permute_var(i32x8::new(8, 9, -8, 15, 0, 0, 0, 0));
    assert_eq!(wrapped.extract::<0>(), 0);
    assert_eq!(wrapped.extract::<1>(), 10);
    assert_eq!(wrapped.extract::<2>(), 0);
    assert_eq!(wrapped.extract::<3>(), 70);
}

#[test]
fn f32_unpack_interleaves_per_half() {
    let a = f32x8::new(0, 1, 2, 3, 4, 5, 6, 7);
    let b = f32x8::new(10, 11, 12, 13, 14, 15, 16, 17);
    let lo = a.unpacklo(b);
    assert_eq!(lo.extract::<0>(), 0);
    assert_eq!(lo.extract::<1>(), 10);
    assert_eq!(lo.extract::<2>(), 1);
    assert_eq!(lo.extract::<3>(), 11);
    assert_eq!(lo.extract::<4>(), 4);
    assert_eq!(lo.extract::<5>(), 14);
    assert_eq!(lo.extract::<6>(), 5);
    assert_eq!(lo.extract::<7>(), 15);
    let hi = a.unpackhi(b);
    assert_eq!(hi.extract::<0>(), 2);
    assert_eq!(hi.extract::<1>(), 12);
    assert_eq!(hi.extract::<2>(), 3);
    assert_eq!(hi.extract::<3>(), 13);
    assert_eq!(hi.extract::<4>(), 6);
    assert_eq!(hi.extract::<5>(), 16);
    assert_eq!(hi.extract::<6>(), 7);
    assert_eq!(hi.extract::<7>(), 17);
}

#[test]
fn f32_blend_selects_by_pattern_bit() {
    let a = f32x8::new(0, 1, 2, 3, 4, 5, 6, 7);
    let b = f32x8::new(100, 101, 102, 103, 104, 105, 106, 107);
    let keep = a.blend::<0>(b);
    assert_eq!(keep.extract::<0>(), 0);
    assert_eq!(keep.extract::<7>(), 7);
    let r = a.blend::<0b10000001>(b);
    assert_eq!(r.extract::<0>(), 100);
    assert_eq!(r.extract::<1>(), 1);
    assert_eq!(r.extract::<6>(), 6);
    assert_eq!(r.extract::<7>(), 107);
}

#[test]
fn f64_permute_selects_within_each_pair() {
    let v = f64x4::new(10, 11, 20, 21);
    let id = v.permute::<0xA>();
    assert_eq!(id.extract::<0>(), 10);
    assert_eq!(id.extract::<1>(), 11);
    assert_eq!(id.extract::<2>(), 20);
    assert_eq!(id.extract::<3>(), 21);
    let dup = v.permute::<0b0000>();
    assert_eq!(dup.extract::<0>(), 10);
    assert_eq!(dup.extract::<1>(), 10);
    assert_eq!(dup.extract::<2>(), 20);
    assert_eq!(dup.extract::<3>(), 20);
}

#[test]
fn f64_permute4x64_reorders_across_the_register() {
    let v = f64x4::new(10, 20, 30, 40);
    let id = v.permute4x64::<0xE4>();
    assert_eq!(id.extract::<0>(), 10);
    assert_eq!(id.extract::<3>(), 40);
    let rev = v.permute4x64::<0b00011011>();
    assert_eq!(rev.extract::<0>(), 40);
    assert_eq!(rev.extract::<1>(), 30);
    assert_eq!(rev.extract::<2>(), 20);
    assert_eq!(rev.extract::<3>(), 10);
}

#[test]
fn f64_permute_var_reads_bit_one_of_each_control() {
    let v = f64x4::new(10, 11, 20, 21);
    let id = v.permute_var(i32x8::new(0, 0, 2, 0, 0, 0, 2, 0));
    assert_eq!(id.extract::<0>(), 10);
    assert_eq!(id.extract::<1>(), 11);
    assert_eq!(id.extract::<2>(), 20);
    assert_eq!(id.extract::<3>(), 21);
    let dup_hi = v.permute_var(i32x8::new(2, 0, 2, 0, 2, 0, 2, 0));
    assert_eq!(dup_hi.extract::<0>(), 11);
    assert_eq!(dup_hi.extract::<1>(), 11);
    assert_eq!(dup_hi.extract::<2>(), 21);
    assert_eq!(dup_hi.extract::<3>(), 21);
}

#[test]
fn f64_blend_selects_by_pattern_bit() {
    let a = f64x4::new(1, 2, 3, 4);
    let b = f64x4::new(11, 12, 13, 14);
    let keep = a.blend::<0>(b);
    assert_eq!(keep.extract::<0>(), 1);
    assert_eq!(keep.extract::<3>(), 4);
    let r = a.blend::<0b1001>(b);
    assert_eq!(r.extract::<0>(), 11);
    assert_eq!(r.extract::<1>(), 2);
    assert_eq!(r.extract::<2>(), 3);
    assert_eq!(r.extract::<3>(), 14);
}

#[test]
fn f32_slice_load_store_round_trip_at_exact_length() {
    let bits: Vec<u32> = vec![
        f32_bits(1.0),
        f32_bits(-2.0),
        f32_bits(0.5),
        f32_bits(f32::NAN),
        4,
        5,
        6,
        7,
    ];
    let v = f32x8::from_slice(&bits);
    assert_eq!(v.extract::<0>(), f32_bits(1.0));
    assert_eq!(v.extract::<3>(), f32_bits(f32::NAN));
    let mut out: Vec<u32> = vec![0; 9];
    out[8] = 99;
    v.store(&mut out);
    assert_eq!(&out[0..8], &bits[0..8]);
    assert_eq!(out[8], 99);

    let dbits: Vec<u64> = vec![f64_bits(-1.25), 1, 2, 3];
    let w = f64x4::from_slice(&dbits);
    assert_eq!(w.extract::<0>(), f64_bits(-1.25));
    let mut dout: Vec<u64> = vec![7; 5];
    w.store(&mut dout);
    assert_eq!(dout, vec![f64_bits(-1.25), 1, 2, 3, 7]);
}

#[test]
fn f32_gather_reads_the_named_elements() {
    let bits: Vec<u32> = (0..10).map(|k: u32| 1000 + k).collect();
    let idx = i32x8::new(9, 0, 3, 3, 7, 1, 2, 8);
    let r = f32x8::gather_unchecked::<4>(&bits, idx);
    assert_eq!(r.extract::<0>(), 1009);
    assert_eq!(r.extract::<1>(), 1000);
    assert_eq!(r.extract::<2>(), 1003);
    assert_eq!(r.extract::<3>(), 1003);
    assert_eq!(r.extract::<4>(), 1007);
    assert_eq!(r.extract::<7>(), 1008);
}

#[test]
fn f32_splat_fills_every_lane() {
    let v = f32x8::splat(f32_bits(2.5));
    assert_eq!(v.extract::<0>(), f32_bits(2.5));
    assert_eq!(v.extract::<7>(), f32_bits(2.5));
    let w = f64x4::splat(f64_bits(-0.0));
    assert_eq!(w.extract::<0>(), 0x8000_0000_0000_0000);
    assert_eq!(w.extract::<3>(), 0x8000_0000_0000_0000);
}

#[test]
fn f64_f32_raw_cast_round_trips() {
    let v = f64x4::new(f64_bits(f64::NAN), 0xFFFF_FFFF_FFFF_FFFF, 1, f64_bits(-0.5));
    let back = v.to_raw_f32().to_raw_f64();
    assert_eq!(back.extract::<0>(), f64_bits(f64::NAN));
    assert_eq!(back.extract::<1>(), 0xFFFF_FFFF_FFFF_FFFF);
    assert_eq!(back.extract::<2>(), 1);
    assert_eq!(back.extract::<3>(), f64_bits(-0.5));
}
