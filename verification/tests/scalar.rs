use pathtracer::scalar::Scalar;

fn s(x: f32) -> Scalar {
    Scalar::from_bits(x.to_bits())
}

fn f(x: Scalar) -> f32 {
    f32::from_bits(x.to_bits())
}

/// Patterns at every edge of the format, of both signs.
fn patterns() -> Vec<u32> {
    let magnitudes: [u32; 24] = [
        0x0000_0000, 0x0000_0001, 0x0000_0002, 0x0040_0000, 0x007f_ffff, 0x0080_0000,
        0x0080_0001, 0x00ff_ffff, 0x0100_0000, 0x3a83_126f, 0x3f00_0000, 0x3f7f_ffff,
        0x3f80_0000, 0x3f80_0001, 0x4000_0000, 0x4b18_9680, 0x7f00_0000, 0x7f7f_ffff,
        0x7f80_0000, 0x7f80_0001, 0x7fc0_0000, 0x7fff_ffff, 0x7fa0_0000, 0x0012_3456,
    ];
    let mut all = Vec::new();
    for m in magnitudes.iter() {
        all.push(*m);
        all.push(*m | 0x8000_0000);
    }
    all
}

#[test]
fn bits_round_trip() {
    for bits in patterns() {
        assert_eq!(Scalar::from_bits(bits).to_bits(), bits);
        assert_eq!(Scalar::from_bits(bits).bits, bits);
    }
}

#[test]
fn zero_is_positive_zero() {
    assert_eq!(Scalar::zero().to_bits(), 0.0f32.to_bits());
    assert!(Scalar::zero().is_zero());
    assert!(s(-0.0).is_zero());
    assert!(!s(1.0e-45).is_zero());
    assert!(!s(f32::NAN).is_zero());
}

#[test]
fn classification_agrees_with_hardware_on_edge_patterns() {
    for bits in patterns() {
        let x = Scalar::from_bits(bits);
        let h = f32::from_bits(bits);
        assert_eq!(x.is_nan(), h.is_nan(), "is_nan of {:#x}", bits);
        assert_eq!(x.is_finite(), h.is_finite(), "is_finite of {:#x}", bits);
        assert_eq!(x.is_zero(), h == 0.0, "is_zero of {:#x}", bits);
    }
}

#[test]
fn order_agrees_with_hardware_on_edge_patterns() {
    for a in patterns() {
        for b in patterns() {
            let (x, y) = (Scalar::from_bits(a), Scalar::from_bits(b));
            let (h, k) = (f32::from_bits(a), f32::from_bits(b));
            assert_eq!(x.lt(y), h < k, "{:#x} < {:#x}", a, b);
            assert_eq!(x.gt(y), h > k, "{:#x} > {:#x}", a, b);
        }
    }
}

#[test]
fn between_agrees_with_hardware_on_edge_patterns() {
    for a in patterns() {
        for lo in patterns() {
            for hi in [0.0f32, 1.0, 1.0e7, f32::INFINITY, f32::NAN, -1.0] {
                let expected = f32::from_bits(lo) < f32::from_bits(a) && f32::from_bits(a) < hi;
                assert_eq!(Scalar::from_bits(a).is_between(Scalar::from_bits(lo), s(hi)), expected);
            }
        }
    }
}

#[test]
fn comparisons_with_nan_are_false() {
    let nan = s(f32::NAN);
    assert!(!nan.lt(s(1.0)));
    assert!(!s(1.0).lt(nan));
    assert!(!nan.gt(s(1.0)));
    assert!(!s(1.0).gt(nan));
    assert!(!nan.lt(nan));
    assert!(!s(0.5).is_between(nan, s(1.0)));
}

#[test]
fn the_two_zeros_are_neither_less_nor_greater() {
    assert!(!s(-0.0).lt(s(0.0)));
    assert!(!s(0.0).lt(s(-0.0)));
    assert!(!s(0.0).gt(s(-0.0)));
    assert!(s(-1.0e-45).lt(s(0.0)));
    assert!(s(-0.0).lt(s(1.0e-45)));
}

#[test]
fn infinities_bound_every_finite_number() {
    assert!(s(f32::MAX).lt(s(f32::INFINITY)));
    assert!(s(f32::NEG_INFINITY).lt(s(f32::MIN)));
    assert!(s(f32::NEG_INFINITY).lt(s(f32::INFINITY)));
    assert!(!s(f32::INFINITY).lt(s(f32::INFINITY)));
}

#[test]
fn max_picks_the_larger_and_skips_nan() {
    assert_eq!(f(s(1.0).max(s(2.0))), 2.0);
    assert_eq!(f(s(2.0).max(s(1.0))), 2.0);
    assert_eq!(f(s(-3.0).max(s(-2.0))), -2.0);
    assert_eq!(f(s(f32::NAN).max(s(0.25))), 0.25);
    assert_eq!(f(s(0.25).max(s(f32::NAN))), 0.25);
    assert!(s(f32::NAN).max(s(f32::NAN)).is_nan());
    assert_eq!(s(0.0).max(s(-0.0)).to_bits(), 0.0f32.to_bits());
    assert_eq!(s(-0.0).max(s(0.0)).to_bits(), (-0.0f32).to_bits());
}

#[test]
fn max_agrees_with_hardware_where_the_numbers_differ() {
    for a in patterns() {
        for b in patterns() {
            let (h, k) = (f32::from_bits(a), f32::from_bits(b));
            if h.is_nan() || k.is_nan() || h == k {
                continue;
            }
            let m = Scalar::from_bits(a).max(Scalar::from_bits(b));
            assert_eq!(m.to_bits(), h.max(k).to_bits());
        }
    }
}

#[test]
fn abs_and_neg_agree_with_hardware_on_edge_patterns() {
    for bits in patterns() {
        let x = Scalar::from_bits(bits);
        let h = f32::from_bits(bits);
        assert_eq!(x.abs().to_bits(), h.abs().to_bits());
        assert_eq!(x.neg().to_bits(), (-h).to_bits());
        assert_eq!(x.neg().neg().to_bits(), bits);
    }
}

#[test]
fn nan_safe_replaces_nan_and_infinities_by_zero() {
    assert_eq!(s(f32::NAN).nan_safe().to_bits(), 0);
    assert_eq!(s(f32::INFINITY).nan_safe().to_bits(), 0);
    assert_eq!(s(f32::NEG_INFINITY).nan_safe().to_bits(), 0);
    assert_eq!(Scalar::from_bits(0xffc0_0000).nan_safe().to_bits(), 0);
    assert_eq!(s(0.75).nan_safe().to_bits(), 0.75f32.to_bits());
    assert_eq!(s(-0.0).nan_safe().to_bits(), (-0.0f32).to_bits());
    assert_eq!(s(f32::MAX).nan_safe().to_bits(), f32::MAX.to_bits());
    assert_eq!(s(1.0e-45).nan_safe().to_bits(), 1);
}

#[test]
fn nan_safe_always_gives_a_finite_number() {
    for bits in patterns() {
        let r = Scalar::from_bits(bits).nan_safe();
        assert!(f(r).is_finite());
        if f32::from_bits(bits).is_finite() {
            assert_eq!(r.to_bits(), bits);
        }
    }
}

fn order_matches(a: u32, b: u32) -> bool {
    let (x, y) = (Scalar::from_bits(a), Scalar::from_bits(b));
    let (h, k) = (f32::from_bits(a), f32::from_bits(b));
    x.lt(y) == (h < k) && x.gt(y) == (h > k)
}

fn classes_match(a: u32) -> bool {
    let x = Scalar::from_bits(a);
    let h = f32::from_bits(a);
    x.is_nan() == h.is_nan()
        && x.is_finite() == h.is_finite()
        && x.is_zero() == (h == 0.0)
        && x.abs().to_bits() == h.abs().to_bits()
        && x.neg().to_bits() == (-h).to_bits()
}

fn between_matches(a: u32, lo: u32, hi: u32) -> bool {
    let expected = f32::from_bits(lo) < f32::from_bits(a) && f32::from_bits(a) < f32::from_bits(hi);
    Scalar::from_bits(a).is_between(Scalar::from_bits(lo), Scalar::from_bits(hi)) == expected
}

fn order_is_transitive(a: u32, b: u32, c: u32) -> bool {
    let (x, y, z) = (Scalar::from_bits(a), Scalar::from_bits(b), Scalar::from_bits(c));
    !(x.lt(y) && y.lt(z)) || x.lt(z)
}

#[test]
fn order_agrees_with_hardware_on_random_patterns() {
    quickcheck::quickcheck(order_matches as fn(u32, u32) -> bool);
}

#[test]
fn classification_agrees_with_hardware_on_random_patterns() {
    quickcheck::quickcheck(classes_match as fn(u32) -> bool);
}

#[test]
fn between_agrees_with_hardware_on_random_patterns() {
    quickcheck::quickcheck(between_matches as fn(u32, u32, u32) -> bool);
}

#[test]
fn order_is_transitive_on_random_patterns() {
    quickcheck::quickcheck(order_is_transitive as fn(u32, u32, u32) -> bool);
}

#[test]
fn clamp_unit_holds_a_number_between_zero_and_one() {
    assert_eq!(f(s(0.5).clamp_unit()), 0.5);
    assert_eq!(f(s(1.0).clamp_unit()), 1.0);
    assert_eq!(f(s(1.000_000_1).clamp_unit()), 1.0);
    assert_eq!(f(s(300.0).clamp_unit()), 1.0);
    assert_eq!(f(s(f32::INFINITY).clamp_unit()), 1.0);
    assert_eq!(s(0.0).clamp_unit().to_bits(), 0);
    assert_eq!(s(-0.0).clamp_unit().to_bits(), 0);
    assert_eq!(s(-2.5).clamp_unit().to_bits(), 0);
    assert_eq!(s(f32::NEG_INFINITY).clamp_unit().to_bits(), 0);
    assert_eq!(s(f32::NAN).clamp_unit().to_bits(), 0);
    assert_eq!(s(1.0e-45).clamp_unit().to_bits(), 1);
}

#[test]
fn clamp_unit_agrees_with_hardware_on_edge_patterns() {
    for bits in patterns() {
        let h = f32::from_bits(bits);
        let expected = if h.is_nan() { 0.0 } else { h.max(0.0).min(1.0) };
        assert_eq!(f(Scalar::from_bits(bits).clamp_unit()), expected, "{:#x}", bits);
    }
}

#[test]
fn a_clamped_channel_spreads_over_a_byte_without_overflow() {
    for bits in patterns() {
        let c = f(Scalar::from_bits(bits).clamp_unit()) * 255.0;
        assert!(0.0 <= c && c <= 255.0);
    }
    assert_eq!((f(s(1.0).clamp_unit()) * 255.0) as u8, 255);
    assert_eq!((f(s(0.5).clamp_unit()) * 255.0) as u8, 127);
    assert_eq!((f(s(7.0).clamp_unit()) * 255.0) as u8, 255);
    assert_eq!((f(s(-7.0).clamp_unit()) * 255.0) as u8, 0);
}

#[test]
fn two_patterns_are_the_same_number_only_if_equal_or_both_zero() {
    for a in patterns() {
        for b in patterns() {
            let (h, k) = (f32::from_bits(a), f32::from_bits(b));
            let same = h == k;
            let by_pattern = !h.is_nan() && !k.is_nan() && (a == b || (a << 1 == 0 && b << 1 == 0));
            assert_eq!(same, by_pattern);
            let (x, y) = (Scalar::from_bits(a), Scalar::from_bits(b));
            if !h.is_nan() && !k.is_nan() {
                assert_eq!(same, !x.lt(y) && !y.lt(x));
            }
        }
    }
}
