use smithay_winit::number::{to_signed, to_unsigned, Double, Single};

fn doubles() -> Vec<f64> {
    let mut values = vec![
        0.0, -0.0, 0.5, -0.5, 0.999_999_999, 1.0, -1.0, 1.5, -1.5, 2.75, 1279.25, -800.0,
        16_777_216.0, 2_147_483_646.5, 2_147_483_647.0, 2_147_483_648.0, -2_147_483_648.0,
        -2_147_483_648.9, -2_147_483_649.0, 4_294_967_294.7, 4_294_967_295.0, 4_294_967_295.9,
        4_294_967_296.0, 8_589_934_592.0, 1e15, -1e15, 1e19, 1e300, -1e300,
        f64::MIN_POSITIVE, f64::MAX, f64::MIN, f64::INFINITY, f64::NEG_INFINITY, f64::NAN, -f64::NAN,
        f64::from_bits(1),
    ];
    let mut bits: u64 = 0x0123_4567_89ab_cdef;
    for _ in 0..20_000 {
        bits = bits.wrapping_mul(6_364_136_223_846_793_005).wrapping_add(1_442_695_040_888_963_407);
        values.push(f64::from_bits(bits));
        // The same fraction, with an exponent near the range of the integers.
        let exponent = 1000 + (bits >> 58);
        values.push(f64::from_bits((bits & 0x800f_ffff_ffff_ffff) | (exponent << 52)));
    }
    values
}

#[test]
fn doubles_become_integers_as_casts_do() {
    for value in doubles() {
        let double = Double::from_bits(value.to_bits());
        assert_eq!(double.bits, value.to_bits());
        assert_eq!(double.to_i32(), value as i32, "{} as i32", value);
        assert_eq!(double.to_u32(), value as u32, "{} as u32", value);
    }
}

#[test]
fn doubles_become_integers() {
    assert_eq!(Double::from_bits((-7.9f64).to_bits()).to_i32(), -7);
    assert_eq!(Double::from_bits((-7.9f64).to_bits()).to_u32(), 0);
    assert_eq!(Double::from_bits(300.99f64.to_bits()).to_i32(), 300);
    assert_eq!(Double::from_bits(300.99f64.to_bits()).to_u32(), 300);
    assert_eq!(Double::from_bits(f64::INFINITY.to_bits()).to_i32(), i32::MAX);
    assert_eq!(Double::from_bits(f64::NEG_INFINITY.to_bits()).to_i32(), i32::MIN);
    assert_eq!(Double::from_bits(f64::NAN.to_bits()).to_i32(), 0);
}

fn singles() -> Vec<f32> {
    let mut values = vec![
        0.0, -0.0, 1.0, -1.0, 0.1, -120.0, 3.4e38, f32::MIN_POSITIVE, f32::MAX, f32::MIN,
        f32::INFINITY, f32::NEG_INFINITY,
    ];
    for shift in 0..23 {
        values.push(f32::from_bits(1 << shift));
        values.push(f32::from_bits((1 << shift) + (1 << shift) / 3));
        values.push(f32::from_bits(0x8000_0000 + (1 << shift)));
    }
    let mut bits: u32 = 0x0123_4567;
    for _ in 0..20_000 {
        bits = bits.wrapping_mul(1_664_525).wrapping_add(1_013_904_223);
        values.push(f32::from_bits(bits));
    }
    values
}

#[test]
fn singles_widen_as_casts_do() {
    for value in singles() {
        let wide = f64::from_bits(Single::from_bits(value.to_bits()).to_double().bits);
        if value.is_nan() {
            assert!(wide.is_nan());
        } else {
            assert_eq!(wide.to_bits(), (value as f64).to_bits(), "{} as f64", value);
        }
    }
}

#[test]
fn no_number_stays_no_number_and_keeps_its_payload() {
    let wide = Single::from_bits(0xff80_0001).to_double();
    assert_eq!(wide.bits, 0xfff8_0000_2000_0000);
    assert!(f64::from_bits(wide.bits).is_nan());
}

#[test]
fn zero_is_zero_of_either_sign() {
    assert!(Single::from_bits(0.0f32.to_bits()).is_zero());
    assert!(Single::from_bits((-0.0f32).to_bits()).is_zero());
    assert!(!Single::from_bits(1).is_zero());
    assert!(!Single::from_bits(f32::NAN.to_bits()).is_zero());
    assert!(!Single::from_bits(f32::NEG_INFINITY.to_bits()).is_zero());
}

#[test]
fn singles_compare_by_value() {
    let values = [0.0f32, -0.0, 1.0, -1.0, f32::INFINITY, f32::NEG_INFINITY, f32::NAN];
    for a in values {
        for b in values {
            assert_eq!(Single::from_bits(a.to_bits()) == Single::from_bits(b.to_bits()), a == b);
        }
    }
}

#[test]
fn doubles_compare_by_value() {
    let values = [0.0f64, -0.0, 1.0, -1.0, 5e-324, f64::INFINITY, f64::NEG_INFINITY, f64::NAN];
    for a in values {
        assert_eq!(Double::from_bits(a.to_bits()).is_zero(), a == 0.0);
        for b in values {
            assert_eq!(Double::from_bits(a.to_bits()) == Double::from_bits(b.to_bits()), a == b);
        }
    }
}

#[test]
fn signs_are_read_and_dropped_in_place() {
    for value in [0u32, 1, 0x7fff_ffff, 0x8000_0000, 0xffff_ffff] {
        assert_eq!(to_signed(value), value as i32);
        assert_eq!(to_unsigned(to_signed(value)), value);
    }
    assert_eq!(to_signed(0xffff_fffe), -2);
    assert_eq!(to_unsigned(-5), 4_294_967_291);
}
