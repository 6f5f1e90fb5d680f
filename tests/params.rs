use repeat::float_bits::{abs_is_one, float_eq, is_nan, is_negative, is_non_negative, is_zero};
use repeat::params::Params;

fn params(repeats: usize, time: f32, feedback: f32, skew: f32) -> Params {
    Params::new(repeats, time.to_bits(), feedback.to_bits(), skew.to_bits())
}

#[test]
fn next_and_previous_parameters_equality() {
    assert!(params(4, 200., 0., 0.) == params(4, 200., 0., 0.));
    assert!(params(4, 200., 0., 0.) != params(4, 1000., 0., 0.));
    assert!(params(8, 200., 0., 0.) != params(4, 1000., 0., 0.));
}

#[test]
fn equality_follows_float_comparison() {
    assert!(params(4, 200., 0., 0.) == params(4, 200., -0., -0.));
    assert!(params(4, f32::NAN, 0., 0.) != params(4, f32::NAN, 0., 0.));
    assert!(params(4, 200., 0.5, 0.) != params(4, 200., -0.5, 0.));
}

#[test]
fn initial_configuration() {
    assert!(Params::initial() == params(4, 200., 0., 0.));
}

#[test]
fn tap_count_is_capped() {
    assert_eq!(params(4, 200., 0., 0.).tap_count(), 4);
    assert_eq!(params(32, 200., 0., 0.).tap_count(), 32);
    assert_eq!(params(40, 200., 0., 0.).tap_count(), 32);
    assert_eq!(params(0, 200., 0., 0.).tap_count(), 0);
}

#[test]
fn float_predicates_match_f32() {
    let values = [
        0.0f32,
        -0.0,
        1.0,
        -1.0,
        0.5,
        -0.5,
        2.0,
        -2.0,
        f32::NAN,
        -f32::NAN,
        f32::INFINITY,
        f32::NEG_INFINITY,
        f32::MIN_POSITIVE,
        -f32::MIN_POSITIVE,
        1e-42,
    ];
    for a in values {
        assert_eq!(is_nan(a.to_bits()), a.is_nan());
        assert_eq!(is_zero(a.to_bits()), a == 0.0);
        assert_eq!(is_non_negative(a.to_bits()), a >= 0.0);
        assert_eq!(is_negative(a.to_bits()), a < 0.0);
        assert_eq!(abs_is_one(a.to_bits()), a.abs() == 1.0);
        for b in values {
            assert_eq!(float_eq(a.to_bits(), b.to_bits()), a == b);
        }
    }
}
