use midicwkeyer::{
    body_end, envelope_of, generate_sample, ramp_len, render, render_ratio, Envelope, KeyerState,
    SymbolAccumulator,
};

fn tone(env: Envelope, k: usize) -> u8 {
    let pi = std::f64::consts::PI;
    let envelope = match env {
        Envelope::Rising { pos, len } => 0.5 * (1.0 - (pi * pos as f64 / len as f64).cos()),
        Envelope::Full => 1.0,
        Envelope::Falling { pos, len } => 0.5 * (1.0 + (pi * pos as f64 / len as f64).cos()),
    };
    let phase = 2.0 * pi * 850.0 * k as f64 / 48000.0;
    (128.0 + 100.0 * envelope * phase.sin()).round() as u8
}

#[test]
fn dot_duration_at_default_speed() {
    let state = KeyerState::new(&tone);
    assert_eq!(state.wpm(), 24);
    // the dit buffer is rendered for exactly 50 ms
    assert_eq!(state.dit_sample().len(), 3552);
    // a silence of exactly 50 ms is within one dot, one microsecond more is not
    let mut acc = SymbolAccumulator::new();
    acc.push_mark('.');
    assert_eq!(acc.after_poll(50_000, state.wpm(), true, false).text, vec!['.']);
    let mut acc = SymbolAccumulator::new();
    acc.push_mark('.');
    assert!(acc.after_poll(50_001, state.wpm(), true, false).text.is_empty());
}

#[test]
fn dit_render_lengths() {
    assert_eq!(ramp_len(12, 48000), 576);
    assert_eq!(body_end(50, 1, 12, 48000), 2976);
    assert_eq!(body_end(1200, 24, 12, 48000), 2976);
    assert_eq!(render_ratio(1200, 24, 12, 48000, &tone).len(), 3552);
    assert_eq!(generate_sample(50, &tone).len(), 3552);
    assert_eq!(render(50, 12, 48000, &tone).len(), 3552);
}

#[test]
fn default_buffers_match_speed() {
    let state = KeyerState::new(&tone);
    assert_eq!(state.dit_sample().len(), 3552);
    // dah of 150 ms: body_end = round(0.162 * 48000) = 7776
    assert_eq!(state.dah_sample().len(), 7776 + 576);
}

#[test]
fn samples_in_range_and_first_silent() {
    for d in [10usize, 50, 150, 400] {
        let buf = generate_sample(d, &tone);
        assert_eq!(buf[0], 128);
        assert!(buf.iter().all(|&s| s >= 28 && s <= 228));
    }
}

#[test]
fn render_without_ramp_starts_silent() {
    let buf = render(10, 0, 48000, &tone);
    assert_eq!(buf.len(), 480);
    assert_eq!(buf[0], 128);
}

#[test]
fn render_rounds_half_up() {
    // 12 ms at 8125 Hz is 97.5 samples
    assert_eq!(ramp_len(12, 8125), 98);
    // 1 ms at 8100 Hz is 8.1 samples
    assert_eq!(ramp_len(1, 8100), 8);
}

#[test]
fn render_ramps_fade_out() {
    let buf = generate_sample(50, &tone);
    // the falling ramp ends close to silence
    let last = buf[buf.len() - 1] as i32;
    assert!((last - 128).abs() <= 2);
    // the sustain reaches full amplitude
    assert!(buf[576..2976].iter().any(|&s| s >= 226));
}

#[test]
fn envelope_segments() {
    assert_eq!(envelope_of(0, 576, 2976), Envelope::Rising { pos: 0, len: 576 });
    assert_eq!(envelope_of(575, 576, 2976), Envelope::Rising { pos: 575, len: 576 });
    assert_eq!(envelope_of(576, 576, 2976), Envelope::Full);
    assert_eq!(envelope_of(2975, 576, 2976), Envelope::Full);
    assert_eq!(envelope_of(2976, 576, 2976), Envelope::Falling { pos: 0, len: 576 });
    assert_eq!(envelope_of(3551, 576, 2976), Envelope::Falling { pos: 575, len: 576 });
}
