use poline::fx::FX_ONE;
use poline::point::PartialPoint3;
use poline::point::Point3;
use poline::ColorPoint;
use poline::Hsl;

const ONE: i64 = FX_ONE;

fn fx(v: f64) -> i64 {
    (v * 4294967296.0).round() as i64
}

fn to_f(bits: i64) -> f64 {
    bits as f64 / 4294967296.0
}

fn assert_near(got: i64, expect: f64, tol: f64) {
    assert!(
        (to_f(got) - expect).abs() < tol,
        "value too far from expectation"
    );
}

#[test]
fn hsl_point_round_trip_plain() {
    let cases = vec![
        (0.0, 0.3, 0.5),
        (45.0, 1.0, 0.25),
        (90.0, 0.5, 0.75),
        (123.45, 0.2, 0.4),
        (180.0, 0.9, 0.5),
        (269.5, 0.1, 0.6),
        (359.0, 0.7, 0.33),
    ];
    for inverted in [false, true] {
        for &(h, s, l) in &cases {
            let c = Hsl { h: fx(h), s: fx(s), l: fx(l) };
            let cp = ColorPoint::from_hsl(c, inverted);
            let back = Hsl::from_point(&cp.point, inverted);
            assert_near(back.h, h, 0.01);
            assert_near(back.s, s, 1e-6);
            assert_near(back.l, l, 1e-4);
        }
    }
}

#[test]
fn hue_zero_maps_to_the_positive_axis() {
    let c = Hsl { h: 0, s: 0, l: ONE };
    let cp = ColorPoint::from_hsl(c, false);
    assert_near(cp.point.x, 1.0, 1e-3);
    assert_near(cp.point.y, 0.5, 1e-3);
    assert_eq!(cp.point.z, 0);
}

#[test]
fn hue_ninety_maps_upward_through_real_sine() {
    let c = Hsl { h: fx(90.0), s: fx(0.5), l: ONE };
    let cp = ColorPoint::from_hsl(c, false);
    assert_near(cp.point.x, 0.5, 1e-3);
    assert_near(cp.point.y, 1.0, 1e-3);
}

#[test]
fn angle_recovery_uses_real_arctangent() {
    let p = Point3 { x: fx(0.75), y: fx(0.75), z: 0 };
    let c = Hsl::from_point(&p, false);
    assert_near(c.h, 45.0, 0.01);
}

#[test]
fn inverted_flag_flips_the_radius_convention() {
    let c = Hsl { h: fx(10.0), s: fx(0.5), l: fx(0.2) };
    let plain = ColorPoint::from_hsl(c, false);
    let inv = ColorPoint::from_hsl(c, true);
    let dp = to_f(plain.point.x) - 0.5;
    let di = to_f(inv.point.x) - 0.5;
    assert!((dp / 0.2 - di / 0.8).abs() < 1e-2);
}

#[test]
fn setters_keep_the_two_representations_consistent() {
    let c = Hsl { h: fx(200.0), s: fx(0.4), l: fx(0.6) };
    let mut cp = ColorPoint::from_hsl(c, false);
    let target = Point3 { x: fx(0.75), y: fx(0.5), z: fx(0.9) };
    cp.set_postion(target);
    assert_eq!(cp.point, target);
    let rederived = ColorPoint::from_hsl(cp.color, cp.inverted);
    assert_near(rederived.point.x, to_f(target.x), 1e-3);
    assert_near(rederived.point.y, to_f(target.y), 1e-3);

    cp.set_hsl(c);
    assert_eq!(cp.color, c);
    let expect = ColorPoint::from_hsl(c, false);
    assert_eq!(cp.point, expect.point);

    cp.set_inverted(true);
    assert!(cp.inverted);
    assert_eq!(cp.color, c);
    assert_eq!(cp.point, ColorPoint::from_hsl(c, true).point);
}

#[test]
fn shift_hue_wraps_modulo_360() {
    let c = Hsl { h: fx(350.0), s: fx(0.5), l: fx(0.5) };
    let mut cp = ColorPoint::from_hsl(c, false);
    cp.shift_hue(fx(20.0));
    assert_eq!(cp.color.h, fx(10.0));
    assert_eq!(cp.point, ColorPoint::from_hsl(cp.color, false).point);
}

#[test]
fn shift_hue_twice_by_180_restores_exactly() {
    let c = Hsl { h: fx(77.25), s: fx(0.5), l: fx(0.5) };
    let mut cp = ColorPoint::from_hsl(c, false);
    cp.shift_hue(fx(180.0));
    cp.shift_hue(fx(180.0));
    assert_eq!(cp.color, c);
    assert_eq!(cp, ColorPoint::from_hsl(c, false));
}

#[test]
fn css_string_format() {
    let cp = ColorPoint::from_hsl(
        Hsl { h: fx(180.0), s: fx(0.5), l: fx(0.25) },
        false,
    );
    assert_eq!(cp.css_string(), "hsl(180.00, 50%, 25%)");
    let small = ColorPoint::from_hsl(
        Hsl { h: fx(5.5), s: ONE, l: 0 },
        false,
    );
    assert_eq!(small.css_string(), "hsl(005.50, 100%, 0%)");
}

#[test]
fn css_string_prints_fractions_exactly() {
    // 129/256 is a dyadic saturation: times 100 it is exactly 50.390625.
    let cp = ColorPoint {
        color: Hsl { h: 0, s: 129 * (ONE / 256), l: fx(0.25) },
        point: Point3 { x: 0, y: 0, z: 0 },
        inverted: false,
    };
    assert_eq!(cp.css_string(), "hsl(000.00, 50.390625%, 25%)");
    // The smallest representable fraction terminates within 32 digits.
    let tiny = ColorPoint {
        color: Hsl { h: 0, s: 1, l: 0 },
        point: Point3 { x: 0, y: 0, z: 0 },
        inverted: false,
    };
    assert_eq!(
        tiny.css_string(),
        "hsl(000.00, 0.000000023283064365386962890625%, 0%)"
    );
}

#[test]
fn css_string_passes_out_of_range_values_through() {
    let cp = ColorPoint {
        color: Hsl { h: fx(400.0), s: fx(1.5), l: fx(-0.25) },
        point: Point3 { x: 0, y: 0, z: 0 },
        inverted: false,
    };
    assert_eq!(cp.css_string(), "hsl(400.00, 150%, -25%)");
}

#[test]
fn css_hue_rounds_half_to_even_and_pads_over_the_sign() {
    let up = ColorPoint {
        color: Hsl { h: fx(0.375), s: 0, l: 0 },
        point: Point3 { x: 0, y: 0, z: 0 },
        inverted: false,
    };
    assert_eq!(up.css_string(), "hsl(000.38, 0%, 0%)");
    let even = ColorPoint {
        color: Hsl { h: fx(0.125), s: 0, l: 0 },
        point: Point3 { x: 0, y: 0, z: 0 },
        inverted: false,
    };
    assert_eq!(even.css_string(), "hsl(000.12, 0%, 0%)");
    let negative = ColorPoint {
        color: Hsl { h: fx(-5.0), s: 0, l: 0 },
        point: Point3 { x: 0, y: 0, z: 0 },
        inverted: false,
    };
    assert_eq!(negative.css_string(), "hsl(-05.00, 0%, 0%)");
}

#[test]
fn center_point_has_hue_zero() {
    let center = Point3 { x: fx(0.5), y: fx(0.5), z: fx(0.7) };
    let c = Hsl::from_point(&center, false);
    assert_eq!(c.h, 0);
    assert_eq!(c.l, 0);
    assert_eq!(c.s, fx(0.7));
}

#[test]
fn distance_is_euclidean() {
    let a = PartialPoint3(Some(0), Some(0), Some(0));
    let b = PartialPoint3(Some(fx(3.0)), Some(fx(4.0)), Some(0));
    assert_eq!(a.distance(&b, None), fx(5.0));
}

#[test]
fn distance_skips_absent_axes() {
    let a = PartialPoint3(Some(fx(100.0)), None, Some(0));
    let b = PartialPoint3(Some(fx(100.0)), Some(fx(4.0)), Some(fx(3.0)));
    assert_eq!(a.distance(&b, None), fx(3.0));
}

#[test]
fn circular_distance_takes_the_short_way_around() {
    let a = PartialPoint3(Some(fx(350.0)), None, None);
    let b = PartialPoint3(Some(fx(10.0)), None, None);
    let d = a.distance(&b, Some(true));
    assert_near(d, 20.0 / 360.0, 1e-6);
    let plain = a.distance(&b, Some(false));
    assert_eq!(plain, fx(340.0));
}

#[test]
fn random_points_stay_in_the_unit_cube() {
    for _ in 0..32 {
        let p2 = poline::point::Point2::random();
        assert!(0 <= p2.x && p2.x < ONE);
        assert!(0 <= p2.y && p2.y < ONE);
        let p3 = Point3::random();
        assert!(0 <= p3.x && p3.x < ONE);
        assert!(0 <= p3.y && p3.y < ONE);
        assert!(0 <= p3.z && p3.z < ONE);
    }
}

#[test]
fn random_pairs_and_triples_take_their_ingredients() {
    let init = poline::point::HslPairInit {
        start_hue: fx(12.0),
        saturation: poline::point::Point2 { x: fx(0.1), y: fx(0.2) },
        lightness: poline::point::Point2 { x: fx(0.8), y: fx(0.9) },
    };
    let pair = Hsl::random_pair(init);
    assert_eq!(pair[0], Hsl { h: fx(12.0), s: fx(0.1), l: fx(0.8) });
    assert_eq!(pair[1].s, fx(0.2));
    assert_eq!(pair[1].l, fx(0.9));
    assert!(0 <= pair[1].h && pair[1].h < fx(360.0));
    let offset = (pair[1].h - fx(12.0)).rem_euclid(fx(360.0));
    assert!(fx(60.0) <= offset && offset < fx(240.0));

    let tinit = poline::point::HslTripleInit {
        start_hue: fx(30.0),
        saturation: Point3 { x: fx(0.1), y: fx(0.2), z: fx(0.3) },
        lightness: Point3 { x: fx(0.4), y: fx(0.5), z: fx(0.6) },
    };
    let triple = Hsl::random_triple(tinit);
    assert_eq!(triple[0], Hsl { h: fx(30.0), s: fx(0.1), l: fx(0.4) });
    assert_eq!(triple[1].s, fx(0.2));
    assert_eq!(triple[2].l, fx(0.6));
    assert!(0 <= triple[2].h && triple[2].h < fx(360.0));
}
