use poline::fns::PositionFn;
use poline::fns::Transformer;
use poline::fx::FX_ONE;

const ONE: i64 = FX_ONE;

fn to_f(bits: i64) -> f64 {
    bits as f64 / 4294967296.0
}

fn all_curves() -> Vec<PositionFn> {
    vec![
        PositionFn::Linear,
        PositionFn::Quadratic,
        PositionFn::Cubic,
        PositionFn::Quartic,
        PositionFn::Quintic,
        PositionFn::Sinusoidal,
        PositionFn::Asinusoidal,
        PositionFn::Arc,
        PositionFn::SmoothStep,
    ]
}

#[test]
fn endpoints_exact_for_algebraic_curves() {
    let exact = vec![
        PositionFn::Linear,
        PositionFn::Quadratic,
        PositionFn::Cubic,
        PositionFn::Quartic,
        PositionFn::Quintic,
        PositionFn::Arc,
        PositionFn::SmoothStep,
    ];
    for c in exact {
        let t = c.get_fn();
        for inv in [false, true] {
            assert_eq!(t.apply(0, inv), 0);
            assert_eq!(t.apply(ONE, inv), ONE);
        }
    }
}

#[test]
fn endpoints_near_for_trig_curves() {
    for c in [PositionFn::Sinusoidal, PositionFn::Asinusoidal] {
        let t = c.get_fn();
        for inv in [false, true] {
            assert!(to_f(t.apply(0, inv)).abs() < 1e-3);
            assert!((to_f(t.apply(ONE, inv)) - 1.0).abs() < 1e-3);
        }
    }
}

#[test]
fn inverted_branch_is_exact_reflection() {
    let reflected = vec![
        PositionFn::Quadratic,
        PositionFn::Cubic,
        PositionFn::Quartic,
        PositionFn::Quintic,
        PositionFn::Sinusoidal,
        PositionFn::Asinusoidal,
    ];
    let samples: Vec<i64> = vec![0, ONE / 8, ONE / 4, ONE / 2, 3 * (ONE / 4), ONE];
    for c in reflected {
        let t = c.get_fn();
        for &s in &samples {
            assert_eq!(t.apply(s, true), ONE - t.apply(ONE - s, false));
        }
    }
}

#[test]
fn arc_inverted_is_quarter_circle_not_reflection() {
    let t = PositionFn::Arc.get_fn();
    let s = ONE / 4;
    let got = to_f(t.apply(s, true));
    let expect = (1.0f64 - (1.0 - 0.25) * (1.0 - 0.25)).sqrt();
    assert!((got - expect).abs() < 1e-4);
}

#[test]
fn identity_and_smooth_step_ignore_the_flag() {
    for c in [PositionFn::Linear, PositionFn::SmoothStep] {
        let t = c.get_fn();
        for s in [0i64, ONE / 4, ONE / 2, ONE] {
            assert_eq!(t.apply(s, true), t.apply(s, false));
        }
    }
}

#[test]
fn quadratic_and_smooth_step_exact_values() {
    let q = PositionFn::Quadratic.get_fn();
    assert_eq!(q.apply(ONE / 2, false), ONE / 4);
    let s = PositionFn::SmoothStep.get_fn();
    assert_eq!(s.apply(ONE / 2, false), ONE / 2);
}

#[test]
fn curve_values_match_their_real_formulas() {
    for c in all_curves() {
        let t = c.get_fn();
        for k in 1..8 {
            let s: i64 = k * (ONE / 8);
            let x = to_f(s);
            let expect = match c {
                PositionFn::Linear => x,
                PositionFn::Quadratic => x * x,
                PositionFn::Cubic => x * x * x,
                PositionFn::Quartic => x * x * x * x,
                PositionFn::Quintic => x * x * x * x * x,
                PositionFn::Sinusoidal => (x * std::f64::consts::PI / 2.0).sin(),
                PositionFn::Asinusoidal => x.asin() / (std::f64::consts::PI / 2.0),
                PositionFn::Arc => 1.0 - (1.0 - x).sqrt(),
                PositionFn::SmoothStep => x * x * (3.0 - 2.0 * x),
            };
            assert!(
                (to_f(t.apply(s, false)) - expect).abs() < 1e-3,
                "curve value too far from its real formula"
            );
        }
    }
}

#[test]
fn asinusoidal_midpoint_uses_real_arcsine() {
    let t = PositionFn::Asinusoidal.get_fn();
    let got = to_f(t.apply(ONE / 2, false));
    assert!((got - 1.0 / 3.0).abs() < 5e-3);
}
