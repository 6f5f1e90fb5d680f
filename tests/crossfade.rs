use repeat::crossfade::{Crossfade, Render};
use repeat::params::Params;
use repeat::ramp::Ramp;

fn params(repeats: usize, time: f32, feedback: f32, skew: f32) -> Params {
    Params::new(repeats, time.to_bits(), feedback.to_bits(), skew.to_bits())
}

#[test]
fn ramp_length_in_samples() {
    assert_eq!(Ramp::new(44100, 5).steps(), 221);
    assert_eq!(Ramp::new(48000, 5).steps(), 240);
    assert_eq!(Ramp::new(1000, 5).steps(), 5);
    assert_eq!(Ramp::new(0, 5).steps(), 1);
}

#[test]
fn ramp_counts_to_its_end() {
    let mut ramp = Ramp::new(1000, 5);
    assert!(ramp.is_finished());
    ramp.start();
    assert!(!ramp.is_finished());
    assert_eq!(ramp.position(), 0);
    for k in 1..5 {
        assert_eq!(ramp.process(), k);
        assert!(!ramp.is_finished());
    }
    assert_eq!(ramp.process(), 5);
    assert!(ramp.is_finished());
    assert_eq!(ramp.process(), 5);
}

#[test]
fn primed_configuration_does_not_fade() {
    let mut fade = Crossfade::new(48000);
    let p = params(8, 120., 0.5, 0.2);
    fade.prime(p);
    assert_eq!(fade.step(p), Render::Steady { slot: 0 });
    assert_eq!(fade.step(p), Render::Steady { slot: 0 });
}

#[test]
fn fade_completes_after_five_milliseconds() {
    let mut fade = Crossfade::new(48000);
    let a = params(4, 200., 0., 0.);
    let b = params(4, 300., 0., 0.);
    assert_eq!(
        fade.step(b),
        Render::Blend { incoming: 1, position: 1, steps: 240, switched: true }
    );
    assert!(fade.config(1) == b);
    assert!(fade.config(0) == a);
    for k in 2..240 {
        assert!(!fade.is_finished());
        assert_eq!(
            fade.step(b),
            Render::Blend { incoming: 1, position: k, steps: 240, switched: false }
        );
    }
    assert_eq!(
        fade.step(b),
        Render::Blend { incoming: 1, position: 240, steps: 240, switched: false }
    );
    assert!(fade.is_finished());
    assert_eq!(fade.step(b), Render::Steady { slot: 1 });
    assert_eq!(fade.active_index(), 1);
}

#[test]
fn no_switch_during_a_fade() {
    let mut fade = Crossfade::new(1000);
    let b = params(4, 300., 0., 0.);
    let c = params(6, 300., 0.3, 0.);
    let renders: Vec<Render> = vec![b, c, b, c, c].into_iter().map(|p| fade.step(p)).collect();
    let switches = renders
        .iter()
        .filter(|r| matches!(r, Render::Blend { switched: true, .. }))
        .count();
    assert_eq!(switches, 1);
    assert_eq!(fade.active_index(), 1);
    assert!(fade.config(1) == b);
    assert!(fade.is_finished());
    assert_eq!(
        fade.step(c),
        Render::Blend { incoming: 0, position: 1, steps: 5, switched: true }
    );
    assert!(fade.config(0) == c);
}

#[test]
fn same_inputs_same_decisions() {
    let inputs = [
        params(4, 200., 0., 0.),
        params(4, 250., 0., 0.),
        params(4, 250., 0., 0.),
        params(9, 250., -0.5, 1.),
        params(9, 250., -0.5, 1.),
        params(9, 250., -0.5, 1.),
        params(9, 250., -0.5, 1.),
        params(9, 250., -0.5, 1.),
        params(2, 50., 1., 0.),
    ];
    let mut first = Crossfade::new(1000);
    let mut second = Crossfade::new(1000);
    let a: Vec<Render> = inputs.iter().map(|p| first.step(*p)).collect();
    let b: Vec<Render> = inputs.iter().map(|p| second.step(*p)).collect();
    assert_eq!(a, b);
}
