use sine_wave::oscillator::{
    Continuation, SineWave, Stage, DEFAULT_FREQUENCY_MHZ, DEFAULT_GAIN_MILLI,
};
use sine_wave::phase::{advance, TURN};

fn radians(phase: u64) -> f64 {
    phase as f64 * std::f64::consts::TAU / TURN as f64
}

fn sample(gain_milli: u32, phase: u64) -> f32 {
    (gain_milli as f32 / 1000.0) * (radians(phase) as f32).sin()
}

#[test]
fn default_is_reference_pitch_at_half_gain() {
    let w = SineWave::default();
    assert_eq!(w.frequency_mhz(), 440000);
    assert_eq!(w.frequency_mhz(), DEFAULT_FREQUENCY_MHZ);
    assert_eq!(w.gain_milli(), 500);
    assert_eq!(w.gain_milli(), DEFAULT_GAIN_MILLI);
    assert_eq!(w.phase(), 0);
    assert_eq!(w.stage(), Stage::Uninitialized);
    assert_eq!(w.increment(), None);
}

#[test]
fn new_keeps_its_arguments() {
    let w = SineWave::new(1000, 250);
    assert_eq!(w.frequency_mhz(), 1000);
    assert_eq!(w.gain_milli(), 250);
    assert_eq!(w.phase(), 0);
    assert_eq!(w.increment(), None);
}

#[test]
fn frequency_check_at_44100() {
    let mut w = SineWave::default();
    let mut buf = vec![0u64; 100];
    assert_eq!(w.render(&mut buf, 44100), Continuation::Continue);
    // 440 * 2^32 / 44100, rounded down
    assert_eq!(w.increment(), Some(42852281));
    assert_eq!(w.stage(), Stage::Running(42852281));
    let step = radians(42852281);
    assert!((step - 440.0 * std::f64::consts::TAU / 44100.0).abs() < 1e-6);
    assert!((step - 0.06267).abs() < 1e-3);
    let samples: Vec<f32> = buf.iter().map(|p| sample(w.gain_milli(), *p)).collect();
    assert_eq!(samples[0], 0.0);
    let mut down = 0;
    let mut up = 0;
    for k in 1..samples.len() - 1 {
        if samples[k] > 0.0 && samples[k + 1] < 0.0 {
            down += 1;
        }
        if samples[k] < 0.0 && samples[k + 1] > 0.0 {
            up += 1;
        }
    }
    assert_eq!(down, 1);
    assert_eq!(up, 0);
    assert!(samples[50] > 0.0 && samples[51] < 0.0);
}

#[test]
fn phases_advance_by_the_increment() {
    let mut w = SineWave::default();
    let mut buf = [9u64; 4];
    w.render(&mut buf, 44100);
    assert_eq!(buf, [0, 42852281, 85704562, 128556843]);
    assert_eq!(w.phase(), 171409124);
}

#[test]
fn phase_of_exactly_one_turn_is_not_wrapped() {
    // 1 Hz at 2 samples per second: half a turn per sample
    let mut w = SineWave::new(1000, 500);
    let mut buf = [0u64; 6];
    w.render(&mut buf, 2);
    assert_eq!(w.increment(), Some(TURN / 2));
    assert_eq!(buf, [0, TURN / 2, TURN, TURN / 2, TURN, TURN / 2]);
    assert_eq!(w.phase(), TURN);
}

#[test]
fn increment_above_one_turn_wraps_repeatedly() {
    // 3.5 Hz at 1 sample per second: three and a half turns per sample
    let mut w = SineWave::new(3500, 500);
    let mut buf = [0u64; 3];
    w.render(&mut buf, 1);
    assert_eq!(w.increment(), Some(7 * (TURN / 2)));
    assert_eq!(buf, [0, TURN / 2, TURN]);
    assert_eq!(advance(TURN, 7 * (TURN / 2)), TURN / 2);
}

#[test]
fn phase_stays_within_one_turn_over_many_calls() {
    let mut w = SineWave::new(19999000, 1000);
    for len in [0usize, 1, 7, 64, 441, 1000] {
        let mut buf = vec![0u64; len];
        w.render(&mut buf, 44100);
        assert!(w.phase() <= TURN);
        assert!(buf.iter().all(|p| *p <= TURN));
    }
}

#[test]
fn split_render_matches_single_render() {
    let mut whole = SineWave::new(1234567, 800);
    let mut one = vec![0u64; 100];
    whole.render(&mut one, 48000);

    let mut split = SineWave::new(1234567, 800);
    let mut first = vec![0u64; 37];
    let mut second = vec![0u64; 63];
    split.render(&mut first, 48000);
    split.render(&mut second, 48000);

    first.extend_from_slice(&second);
    assert_eq!(first, one);
    assert_eq!(split.phase(), whole.phase());
}

#[test]
fn increment_is_derived_once() {
    let mut w = SineWave::default();
    let mut buf = [0u64; 8];
    w.render(&mut buf, 44100);
    let first = w.increment();
    w.render(&mut buf, 48000);
    w.render(&mut buf, 8000);
    assert_eq!(w.increment(), first);
    assert_eq!(first, Some(42852281));
}

#[test]
fn empty_buffer_still_derives_increment() {
    let mut w = SineWave::default();
    let mut buf: [u64; 0] = [];
    assert_eq!(w.render(&mut buf, 48000), Continuation::Continue);
    // 440 * 2^32 / 48000, rounded down
    assert_eq!(w.increment(), Some(39370533));
    assert_eq!(w.phase(), 0);
}

#[test]
fn render_never_asks_to_stop() {
    let mut w = SineWave::default();
    let mut buf = [0u64; 32];
    for _ in 0..1000 {
        assert_ne!(w.render(&mut buf, 44100), Continuation::Stop);
    }
    assert!(w.phase() <= TURN);
}

#[test]
fn zero_gain_gives_silence() {
    let mut w = SineWave::new(440000, 0);
    let mut buf = [0u64; 200];
    w.render(&mut buf, 44100);
    assert!(buf.iter().all(|p| sample(w.gain_milli(), *p) == 0.0));
}

#[test]
fn samples_stay_within_gain() {
    let mut w = SineWave::new(997000, 700);
    let mut buf = [0u64; 500];
    w.render(&mut buf, 44100);
    assert!(buf.iter().all(|p| sample(w.gain_milli(), *p).abs() <= 0.7 + 1e-6));
}
