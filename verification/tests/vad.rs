use gemini_live_mock_server::energy::Energy;
use gemini_live_mock_server::vad::{Vad, VadEvent, VadState};

fn level(value: f32) -> Energy {
    Energy::from_bits(value.to_bits())
}

/// The RMS energy of PCM audio samples.
fn rms(samples: &[i16]) -> Energy {
    if samples.is_empty() {
        return level(0.0);
    }
    let sum_squares: f64 = samples
        .iter()
        .map(|&s| {
            let normalized = s as f64 / i16::MAX as f64;
            normalized * normalized
        })
        .sum();
    level((sum_squares / samples.len() as f64).sqrt() as f32)
}

#[test]
fn test_vad_speech_detection() {
    let mut vad = Vad::new(level(0.01), 3);

    // Silence
    let silence = vec![0i16; 100];
    assert_eq!(vad.process(rms(&silence)), None);
    assert_eq!(vad.state(), VadState::Silence);

    // Speech starts
    let loud = vec![i16::MAX / 2; 100];
    assert_eq!(vad.process(rms(&loud)), Some(VadEvent::SpeechStart));
    assert_eq!(vad.state(), VadState::Speech);

    // Speech continues
    assert_eq!(vad.process(rms(&loud)), None);

    // Silence detected but not long enough
    assert_eq!(vad.process(rms(&silence)), None);
    assert_eq!(vad.process(rms(&silence)), None);
    assert_eq!(vad.state(), VadState::Speech);

    // Silence long enough - speech ends
    assert_eq!(vad.process(rms(&silence)), Some(VadEvent::SpeechEnd));
    assert_eq!(vad.state(), VadState::Silence);
}

#[test]
fn energy_compares_like_a_number() {
    let values = [
        0.0f32,
        -0.0,
        0.01,
        0.010000001,
        1.0,
        -1.0,
        -0.5,
        f32::MIN_POSITIVE,
        1e-45,
        -1e-45,
        f32::MAX,
        f32::MIN,
        f32::INFINITY,
        f32::NEG_INFINITY,
        f32::NAN,
        -f32::NAN,
    ];
    for a in values {
        for b in values {
            assert_eq!(level(a).exceeds(&level(b)), a > b, "{a} > {b}");
        }
    }
    assert_eq!(level(0.01).to_bits(), 0x3c23d70a);
}

#[test]
fn energy_at_the_threshold_is_not_speech() {
    let mut vad = Vad::new(level(0.5), 1);
    assert_eq!(vad.process(level(0.5)), None);
    assert_eq!(vad.process(level(0.50001)), Some(VadEvent::SpeechStart));
}

#[test]
fn a_threshold_that_is_no_number_hears_nothing() {
    let mut vad = Vad::new(level(f32::NAN), 1);
    assert_eq!(vad.process(level(1.0)), None);
    assert_eq!(vad.state(), VadState::Silence);
}

#[test]
fn no_silent_frames_count_as_one() {
    let mut vad = Vad::new(level(0.01), 0);
    assert_eq!(vad.process(level(0.5)), Some(VadEvent::SpeechStart));
    assert_eq!(vad.process(level(0.5)), None);
    assert_eq!(vad.process(level(0.0)), Some(VadEvent::SpeechEnd));
}

#[test]
fn a_speech_frame_restarts_the_count() {
    let mut vad = Vad::new(level(0.01), 2);
    assert_eq!(vad.process(level(0.5)), Some(VadEvent::SpeechStart));
    assert_eq!(vad.process(level(0.0)), None);
    assert_eq!(vad.process(level(0.5)), None);
    assert_eq!(vad.process(level(0.0)), None);
    assert_eq!(vad.state(), VadState::Speech);
    assert_eq!(vad.process(level(0.0)), Some(VadEvent::SpeechEnd));
}

#[test]
fn silence_goes_on() {
    let mut vad = Vad::new(level(0.01), 2);
    for _ in 0..10 {
        assert_eq!(vad.process(level(0.0)), None);
        assert_eq!(vad.state(), VadState::Silence);
    }
}

#[test]
fn reset_forgets_the_speech() {
    let mut vad = Vad::new(level(0.01), 2);
    vad.process(level(0.5));
    vad.process(level(0.0));
    vad.reset();
    assert_eq!(vad.state(), VadState::Silence);
    assert_eq!(vad.process(level(0.0)), None);
    assert_eq!(vad.process(level(0.5)), Some(VadEvent::SpeechStart));
    assert_eq!(vad.process(level(0.0)), None);
}

#[test]
fn an_event_can_be_known_before_the_frame_is_processed() {
    let mut vad = Vad::new(level(0.01), 2);
    let frames = [0.0, 0.5, 0.5, 0.0, 0.5, 0.0, 0.0, 0.0, 0.5];
    for energy in frames {
        let state = vad.state();
        let expected = vad.event(level(energy));
        assert_eq!(vad.state(), state);
        assert_eq!(vad.process(level(energy)), expected);
    }
    // A threshold of no frames still takes one silent frame
    let mut vad = Vad::new(level(0.01), 0);
    vad.process(level(0.5));
    assert_eq!(vad.event(level(0.0)), Some(VadEvent::SpeechEnd));
}
