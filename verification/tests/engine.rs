use poline::fns::PositionFn;
use poline::point::PointOrHsl;
use poline::error::PolineError;
use poline::Hsl;
use poline::Poline;

fn fx(v: f64) -> i64 {
    (v * 4294967296.0).round() as i64
}

fn to_f(bits: i64) -> f64 {
    bits as f64 / 4294967296.0
}

fn three_anchors() -> Vec<Hsl> {
    vec![
        Hsl { h: fx(10.0), s: fx(0.5), l: fx(0.5) },
        Hsl { h: fx(120.0), s: fx(0.6), l: fx(0.4) },
        Hsl { h: fx(250.0), s: fx(0.7), l: fx(0.6) },
    ]
}

#[test]
fn open_poline_flattened_length_and_anchor_hits() {
    let p = Poline::builder()
        .anchor_points(three_anchors())
        .num_points(4)
        .build()
        .unwrap();
    let flat = p.flattened_points();
    assert_eq!(flat.len(), 2 * 4 - 1);
    let anchors = p.anchor_points().clone();
    for (m, j) in [(0usize, 0usize), (1, 3), (2, 6)] {
        assert!((to_f(flat[j].point.x) - to_f(anchors[m].point.x)).abs() < 1e-3);
        assert!((to_f(flat[j].point.y) - to_f(anchors[m].point.y)).abs() < 1e-3);
        assert!((to_f(flat[j].point.z) - to_f(anchors[m].point.z)).abs() < 1e-3);
        assert!((to_f(flat[j].color.h) - to_f(anchors[m].color.h)).abs() < 0.05);
    }
    assert_eq!(p.colors().len(), 7);
}

#[test]
fn quadratic_easing_hits_anchors_exactly() {
    let quad = PositionFn::Quadratic.get_fn();
    let p = Poline::builder()
        .anchor_points(three_anchors())
        .num_points(4)
        .set_x_fn(quad)
        .set_y_fn(quad)
        .set_z_fn(quad)
        .build()
        .unwrap();
    let flat = p.flattened_points();
    let anchors = p.anchor_points().clone();
    assert_eq!(flat[0].point, anchors[0].point);
    assert_eq!(flat[3].point, anchors[1].point);
    assert_eq!(flat[6].point, anchors[2].point);
}

#[test]
fn closed_poline_trims_the_closing_duplicate() {
    let p = Poline::builder()
        .anchor_points(three_anchors())
        .num_points(4)
        .closed_loop(true)
        .build()
        .unwrap();
    let flat = p.flattened_points();
    assert_eq!(flat.len(), 3 * 4 - 2);
    let colors = p.colors();
    assert_eq!(colors.len(), 9);
    let a_hue = to_f(p.anchor_points()[0].color.h);
    let last_hue = to_f(colors[8].h);
    assert!((last_hue - a_hue).abs() > 1.0);
    assert!((to_f(colors[0].h) - a_hue).abs() < 0.05);
}

#[test]
fn nearest_anchor_uses_the_plain_metric_by_default() {
    let p = Poline::builder()
        .anchor_points(vec![
            Hsl { h: 0, s: fx(0.5), l: fx(0.5) },
            Hsl { h: fx(180.0), s: fx(0.5), l: fx(0.5) },
        ])
        .build()
        .unwrap();
    let query = Hsl { h: fx(170.0), s: fx(0.5), l: fx(0.5) };
    let (best, d) = p.get_closest_anchor_point(PointOrHsl::Hsl(query)).unwrap();
    assert_eq!(best.color.h, fx(180.0));
    assert!((to_f(d) - 10.0).abs() < 1e-6);
}

#[test]
fn nearest_anchor_tie_goes_to_the_last() {
    let p = Poline::builder()
        .anchor_points(vec![
            Hsl { h: fx(160.0), s: fx(0.5), l: fx(0.5) },
            Hsl { h: fx(180.0), s: fx(0.5), l: fx(0.5) },
        ])
        .build()
        .unwrap();
    let query = Hsl { h: fx(170.0), s: fx(0.5), l: fx(0.5) };
    let (best, d) = p.get_closest_anchor_point(PointOrHsl::Hsl(query)).unwrap();
    assert_eq!(best.color.h, fx(180.0));
    assert_eq!(d, fx(10.0));
}

#[test]
fn nearest_anchor_by_point() {
    let p = Poline::builder().anchor_points(three_anchors()).build().unwrap();
    let target = p.anchor_points()[2].point;
    let (best, d) = p.get_closest_anchor_point(PointOrHsl::Point(target)).unwrap();
    assert_eq!(best.point, target);
    assert_eq!(d, 0);
}

#[test]
fn failed_mutations_leave_the_engine_unchanged() {
    let mut p = Poline::builder().anchor_points(three_anchors()).build().unwrap();
    let before = p.colors_css();

    assert_eq!(p.set_num_points(0), Err(PolineError::InvalidPointsPerSegment));
    assert_eq!(p.set_num_points(1), Err(PolineError::InvalidPointsPerSegment));
    assert_eq!(p.set_num_points(-7), Err(PolineError::InvalidPointsPerSegment));
    assert_eq!(p.set_anchor_points(vec![]).unwrap_err(), PolineError::InsufficientAnchors);
    assert_eq!(p.remove_anchor_point(99).unwrap_err(), PolineError::IndexOutOfRange);
    assert!(p.update_anchor_point(99, PointOrHsl::Hsl(three_anchors()[0])).is_err());

    assert_eq!(p.colors_css(), before);
    assert_eq!(p.num_points(), 4);
}

#[test]
fn single_anchor_construction_fails() {
    let r = Poline::builder()
        .anchor_points(vec![Hsl { h: 0, s: 0, l: 0 }])
        .build();
    assert!(matches!(r, Err(PolineError::InsufficientAnchors)));
    let r2 = Poline::builder().anchor_points(vec![]).build();
    assert!(matches!(r2, Err(PolineError::InsufficientAnchors)));
}

#[test]
fn zero_points_per_segment_fails_at_build_too() {
    let r = Poline::builder().anchor_points(three_anchors()).num_points(0).build();
    assert!(matches!(r, Err(PolineError::InvalidPointsPerSegment)));
}

#[test]
fn removing_one_of_two_anchors_is_refused() {
    let mut p = Poline::builder()
        .anchor_points(vec![
            Hsl { h: 0, s: 0, l: 0 },
            Hsl { h: fx(90.0), s: fx(0.5), l: fx(0.5) },
        ])
        .build()
        .unwrap();
    assert_eq!(p.remove_anchor_point(0).unwrap_err(), PolineError::InsufficientAnchors);
    assert_eq!(p.anchor_points().len(), 2);
}

#[test]
fn anchors_can_be_added_removed_and_updated() {
    let mut p = Poline::builder().anchor_points(three_anchors()).build().unwrap();
    let extra = poline::ColorPoint::from_hsl(Hsl { h: fx(300.0), s: fx(0.5), l: fx(0.5) }, false);
    let added = p.add_anchor_point(extra, Some(1));
    assert_eq!(added.color.h, fx(300.0));
    assert_eq!(p.anchor_points().len(), 4);
    assert_eq!(p.anchor_points()[1].color.h, fx(300.0));
    assert_eq!(p.flattened_points().len(), 3 * 4 - 2);

    let removed = p.remove_anchor_point(1).unwrap();
    assert_eq!(removed.color.h, fx(300.0));
    assert_eq!(p.anchor_points().len(), 3);

    let updated = p
        .update_anchor_point(0, PointOrHsl::Hsl(Hsl { h: fx(33.0), s: fx(0.4), l: fx(0.5) }))
        .unwrap();
    assert_eq!(updated.color.h, fx(33.0));
    assert_eq!(p.anchor_points()[0].color.h, fx(33.0));
}

#[test]
fn set_num_points_changes_the_grid() {
    let mut p = Poline::builder().anchor_points(three_anchors()).build().unwrap();
    p.set_num_points(6).unwrap();
    assert_eq!(p.num_points(), 6);
    assert_eq!(p.flattened_points().len(), 2 * 6 - 1);
}

#[test]
fn closed_loop_toggle_rebuilds() {
    let mut p = Poline::builder().anchor_points(three_anchors()).build().unwrap();
    assert!(!p.closed_loop());
    assert_eq!(p.flattened_points().len(), 7);
    p.set_closed_loop(true);
    assert!(p.closed_loop());
    assert_eq!(p.flattened_points().len(), 10);
}

#[test]
fn set_inverted_rederives_every_anchor() {
    let mut p = Poline::builder().anchor_points(three_anchors()).build().unwrap();
    let colors: Vec<Hsl> = p.anchor_points().iter().map(|a| a.color).collect();
    p.set_inverted(true);
    assert!(p.inverted());
    for (i, a) in p.anchor_points().iter().enumerate() {
        assert!(a.inverted);
        assert_eq!(a.color, colors[i]);
        let expect = poline::ColorPoint::from_hsl(colors[i], true);
        assert_eq!(a.point, expect.point);
    }
}

#[test]
fn shift_hue_twice_by_180_restores_every_anchor() {
    let mut p = Poline::builder().anchor_points(three_anchors()).build().unwrap();
    let before = p.anchor_points().clone();
    let css_before = p.colors_css();
    p.shift_hue(Some(fx(180.0)));
    p.shift_hue(Some(fx(180.0)));
    assert_eq!(p.anchor_points().clone(), before);
    assert_eq!(p.colors_css(), css_before);
}

#[test]
fn shift_hue_defaults_to_twenty_degrees() {
    let mut p = Poline::builder().anchor_points(three_anchors()).build().unwrap();
    p.shift_hue(None);
    assert_eq!(p.anchor_points()[0].color.h, fx(30.0));
    assert_eq!(p.anchor_points()[1].color.h, fx(140.0));
    assert_eq!(p.anchor_points()[2].color.h, fx(270.0));
}

#[test]
fn default_builder_builds_a_random_two_anchor_palette() {
    let p = Poline::builder().build().unwrap();
    assert_eq!(p.anchor_points().len(), 2);
    assert_eq!(p.num_points(), 4);
    assert!(!p.closed_loop());
    assert!(!p.inverted());
    assert_eq!(p.flattened_points().len(), 4);
    for a in p.anchor_points().iter() {
        let h = to_f(a.color.h);
        assert!((0.0..360.0).contains(&h));
    }
}

#[test]
fn position_fns_round_trip_through_the_engine() {
    let mut p = Poline::builder().anchor_points(three_anchors()).build().unwrap();
    let fns = p.position_fn();
    assert_eq!(fns[0].curve, PositionFn::Sinusoidal);
    p.set_position_fn([
        PositionFn::Cubic.get_fn(),
        PositionFn::Arc.get_fn(),
        PositionFn::Linear.get_fn(),
    ]);
    let fns2 = p.position_fn();
    assert_eq!(fns2[0].curve, PositionFn::Cubic);
    assert_eq!(fns2[1].curve, PositionFn::Arc);
    assert_eq!(fns2[2].curve, PositionFn::Linear);
}

#[test]
fn css_output_matches_the_colors() {
    let p = Poline::builder().anchor_points(three_anchors()).build().unwrap();
    let css = p.colors_css();
    let colors = p.colors();
    assert_eq!(css.len(), colors.len());
    for s in &css {
        assert!(s.starts_with("hsl("));
        assert!(s.ends_with("%)"));
    }
}
