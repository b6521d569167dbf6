use bakawm::animation::{Animation, AnimationValue, Curve, Spring, SpringParams, SpringTimes};
use bakawm::config::AnimConfig;
use bakawm::decimal::{parse_i32_text, parse_unsigned, signed_text, unsigned_text, NumberError};
use bakawm::float::F64;
use bakawm::geometry::{sat_add, sat_sub, subtract_rects_many, Point, Rect, Size, Transform};
use bakawm::text::{chars_of, contains, same, starts_with, text_of, trim};

fn double(x: f64) -> F64 {
    F64::from_bits(x.to_bits())
}

fn rect(x: i32, y: i32, w: i32, h: i32) -> Rect {
    Rect::new(Point::new(x, y), Size::new(w, h))
}

const NUMBERS: [f64; 18] = [
    0.0, -0.0, 0.25, 0.5, -0.5, 0.75, 1.0, 1.5, 2.5, -2.5, 3.499, 100.0, 4000.5, -7.75, 1e9, 3e9, -3e9, 1e300,
];

#[test]
fn doubles_compare_as_numbers_do() {
    for a in NUMBERS {
        for b in NUMBERS {
            assert_eq!(double(a).lt(double(b)), a < b);
            assert_eq!(double(a).le(double(b)), a <= b);
            assert_eq!(double(a).equals(double(b)), a == b);
        }
        assert!(!double(a).lt(double(f64::NAN)));
        assert!(!double(f64::NAN).le(double(a)));
        assert!(!double(f64::NAN).equals(double(f64::NAN)));
    }
    assert!(double(f64::NAN).is_nan());
    assert!(!double(f64::INFINITY).is_nan());
}

#[test]
fn doubles_clamp_and_rise() {
    for a in NUMBERS {
        assert_eq!(double(a).clamp(double(-1.0), double(2.0)).to_bits(), a.clamp(-1.0, 2.0).to_bits());
        assert_eq!(f64::from_bits(double(a).at_least(double(1.0)).to_bits()), a.max(1.0));
    }
    assert!(double(f64::NAN).clamp(double(0.0), double(1.0)).is_nan());
    assert_eq!(double(f64::NAN).at_least(double(1.0)), double(1.0));
    let once = double(7.0).clamp(double(0.0), double(1.0));
    assert_eq!(once.clamp(double(0.0), double(1.0)), once);
}

#[test]
fn doubles_become_whole_numbers() {
    for a in NUMBERS {
        assert_eq!(double(a).trunc_i32(), a as i32);
        assert_eq!(double(a).round_i32(), a.round() as i32);
    }
    assert_eq!(double(f64::NAN).trunc_i32(), 0);
    assert_eq!(double(f64::INFINITY).trunc_i32(), i32::MAX);
    assert_eq!(double(f64::NEG_INFINITY).round_i32(), i32::MIN);
    assert_eq!(double(5e-324).round_i32(), 0);
}

#[test]
fn whole_numbers_become_doubles() {
    for n in [0, 1, -1, 2, 3, 7, 1000, -4095, i32::MAX, i32::MIN, i32::MIN + 1] {
        assert_eq!(F64::from_i32(n).to_bits(), (n as f64).to_bits());
        assert_eq!(F64::from_i32(n).trunc_i32(), n);
    }
    for n in [0u32, 1, 31, 32, 0x7fff_ffff, 0x8000_0000, u32::MAX] {
        assert_eq!(F64::from_u32(n).to_bits(), (n as f64).to_bits());
    }
}

#[test]
fn rectangles_hold_meet_and_join() {
    let a = rect(0, 0, 10, 10);
    let b = rect(5, 5, 10, 10);
    assert!(a.contains(Point::new(0, 9)));
    assert!(!a.contains(Point::new(10, 0)));
    assert!(a.overlaps(&b));
    assert!(!a.overlaps(&rect(10, 0, 5, 5)));
    assert_eq!(a.intersection(&b), Some(rect(5, 5, 5, 5)));
    assert_eq!(a.intersection(&rect(10, 0, 5, 5)), None);
    assert_eq!(a.merge(&b), rect(0, 0, 15, 15));
    assert!(a.contains_rect(&rect(2, 2, 3, 3)));
    assert!(!a.contains_rect(&b));
    assert_eq!(sat_add(i32::MAX, 1), i32::MAX);
    assert_eq!(sat_sub(i32::MIN, 1), i32::MIN);
    assert_eq!(Point::new(1, 2).offset_by(Point::new(3, 4)), Point::new(4, 6));
    assert_eq!(Point::new(1, 2).relative_to(Point::new(3, 4)), Point::new(-2, -2));
}

fn holds(rects: &[Rect], x: i32, y: i32) -> bool {
    rects.iter().any(|r| r.contains(Point::new(x, y)))
}

#[test]
fn subtraction_leaves_exactly_the_rest() {
    let rects = vec![rect(0, 0, 8, 8), rect(4, 4, 8, 3)];
    let others = vec![rect(2, 2, 3, 3), rect(0, 0, 1, 20), rect(20, 20, 1, 1)];
    let left = subtract_rects_many(&rects, &others);
    for x in -1..14 {
        for y in -1..14 {
            assert_eq!(holds(&left, x, y), holds(&rects, x, y) && !holds(&others, x, y));
        }
    }
    assert_eq!(rect(0, 0, 4, 4).cut(&rect(0, 0, 4, 4)).unwrap().len(), 0);
    assert_eq!(rect(0, 0, 9, 9).cut(&rect(3, 3, 3, 3)).unwrap().len(), 4);
    assert!(rect(0, 0, 4, 4).cut(&rect(4, 0, 4, 4)).is_none());
}

#[test]
fn transforms_turn_and_turn_back() {
    let all = [
        Transform::Normal,
        Transform::Rot90,
        Transform::Rot180,
        Transform::Rot270,
        Transform::Flipped,
        Transform::Flipped90,
        Transform::Flipped180,
        Transform::Flipped270,
    ];
    for t in all {
        let size = Size::new(30, 20);
        assert_eq!(t.invert().transform_size(t.transform_size(size)), size);
    }
    assert_eq!(Transform::Rot90.transform_size(Size::new(30, 20)), Size::new(20, 30));
    assert_eq!(Transform::Rot90.invert(), Transform::Rot270);
    assert_eq!(
        Transform::Rot180.transform_rect_in(rect(1, 2, 3, 4), Size::new(30, 20)),
        rect(26, 14, 3, 4)
    );
    assert_eq!(
        Transform::Normal.transform_rect_in(rect(1, 2, 3, 4), Size::new(30, 20)),
        rect(1, 2, 3, 4)
    );
}

#[test]
fn texts_are_searched_and_trimmed() {
    let samples = ["", "a", "abc", "  abc ", "\t\u{2003}x y\u{3000}\n", "\u{85}\u{a0}", "aaab", "ab\u{200b}"];
    for s in samples {
        assert_eq!(trim(s), s.trim());
        for t in samples {
            assert_eq!(contains(s, t), s.contains(t));
            assert_eq!(starts_with(s, t), s.starts_with(t));
            assert_eq!(same(s, t), s == t);
        }
        assert_eq!(chars_of(s), s.chars().collect::<Vec<char>>());
    }
    assert_eq!(text_of(&vec!['a', 'ß', 'c'], 1, 3), "ßc");
    for n in 0..0x4000u32 {
        if let Some(c) = char::from_u32(n) {
            let s = c.to_string();
            assert_eq!(trim(&s), s.trim());
        }
    }
}

#[test]
fn numbers_are_written_and_read_back() {
    for n in [0u64, 1, 9, 10, 99, 100, 12345678901234567890, u64::MAX] {
        assert_eq!(unsigned_text(n), n.to_string());
        assert_eq!(parse_unsigned(&unsigned_text(n), u64::MAX), Ok(n));
    }
    for n in [0i64, 7, -7, i64::MAX, i64::MIN] {
        assert_eq!(signed_text(n), n.to_string());
    }
    for n in [0i32, -1, i32::MAX, i32::MIN] {
        assert_eq!(parse_i32_text(&signed_text(n as i64)), Ok(n));
    }
}

#[test]
fn numbers_are_read_as_std_reads_them() {
    let samples = [
        "", "+", "-", "0", "+7", "-7", "--7", "0x10", "12a", " 1", "2147483647", "2147483648", "-2147483648",
        "-2147483649", "18446744073709551615", "18446744073709551616", "99999999999999999999", "-0", "007", "-99999999999a",
    ];
    for s in samples {
        assert_eq!(parse_i32_text(s).ok(), s.parse::<i32>().ok());
        assert_eq!(parse_unsigned(s, u64::MAX).ok(), s.parse::<u64>().ok());
    }
    assert_eq!(parse_i32_text(""), Err(NumberError::Empty));
    assert_eq!(parse_i32_text("-"), Err(NumberError::InvalidDigit));
    assert_eq!(parse_i32_text("2147483648"), Err(NumberError::TooLarge));
    assert_eq!(parse_i32_text("-2147483649"), Err(NumberError::TooSmall));
    assert_eq!(parse_unsigned("300", 255), Err(NumberError::TooLarge));
}

#[test]
fn easing_runs_for_its_time() {
    let a = Animation::ease(double(1.0), double(3.0), 250, Curve::EaseOutQuad, 1_000);
    assert!(!a.is_done(1_000 + 249_999_999));
    assert!(a.is_done(1_000 + 250_000_000));
    assert_eq!(a.is_clamped_done(5_000), a.is_done(5_000));
    assert_eq!(a.value(1_000 + 250_000_000), AnimationValue::Exact { value: double(3.0) });
    assert_eq!(
        a.value(1_500),
        AnimationValue::Eased {
            curve: Curve::EaseOutQuad,
            passed: 500,
            total: 250_000_000,
            from: double(1.0),
            to: double(3.0)
        }
    );
    // A clock that runs backwards counts as no time.
    assert_eq!(a.value(0), a.value_at(0));
    let again = a.restarted(double(0.0), double(9.0), double(0.0), SpringTimes { duration: 1, clamped_duration: None }, 77);
    assert_eq!(again, Animation::ease(double(0.0), double(9.0), 250, Curve::EaseOutQuad, 77));
    let off = Animation::new_off(5);
    assert!(off.is_done(0));
    assert_eq!(off.value(5), AnimationValue::Exact { value: double(1.0) });
    let times = SpringTimes { duration: 1, clamped_duration: None };
    let again = off.restarted(double(0.0), double(9.0), double(0.0), times, 77);
    assert!(again.is_done(0));
    assert_eq!(again.start_time, 77);
    assert_eq!(again.value(77), AnimationValue::Exact { value: double(9.0) });
}

#[test]
fn springs_may_reach_their_target_early() {
    let params = SpringParams { damping_ratio: double(0.8), stiffness: double(300.0), epsilon: double(0.01) };
    let spring = Spring { from: double(0.0), to: double(0.0), initial_velocity: double(2.0), params };
    let times = SpringTimes { duration: 100, clamped_duration: Some(60) };
    let s = Animation::spring(double(1.0), double(5.0), spring, times, 10);
    assert_eq!(s.initial_velocity, double(2.0));
    assert!(!s.is_done(80));
    assert!(s.is_clamped_done(80));
    assert_eq!(s.clamped_value(80), AnimationValue::Exact { value: double(5.0) });
    assert!(matches!(s.value(80), AnimationValue::Sprung { passed: 70, .. }));
    let open = Animation::spring(double(1.0), double(5.0), spring, SpringTimes { duration: 100, clamped_duration: None }, 10);
    assert!(!open.is_clamped_done(80));
    assert!(open.is_clamped_done(110));
}

#[test]
fn without_animation_values_snap() {
    let times = SpringTimes { duration: 1, clamped_duration: None };
    let a = AnimConfig::Off.to_animation(double(2.0), double(5.0), times, 40);
    assert!(a.is_done(40));
    assert_eq!((a.from, a.to), (double(2.0), double(5.0)));
    assert_eq!(a.value(40), AnimationValue::Exact { value: double(5.0) });
}
