use midicwkeyer::{Envelope, InputEvent, KeyerState, Paddle};

fn tone(env: Envelope, k: usize) -> u8 {
    let pi = std::f64::consts::PI;
    let envelope = match env {
        Envelope::Rising { pos, len } => 0.5 * (1.0 - (pi * pos as f64 / len as f64).cos()),
        Envelope::Full => 1.0,
        Envelope::Falling { pos, len } => 0.5 * (1.0 + (pi * pos as f64 / len as f64).cos()),
    };
    let phase = 2.0 * pi * 850.0 * k as f64 / 48000.0;
    (128.0 + 100.0 * envelope * phase.sin()).round() as u8
}

#[test]
fn speed_event_regenerates_buffers() {
    let mut s = KeyerState::new(&tone);
    let r = s.apply_event(InputEvent::SpeedChanged { raw: 0 }, &tone);
    assert_eq!(r, Some(6));
    assert_eq!(s.wpm(), 6);
    // round(0.212 * 48000) + 576
    assert_eq!(s.dit_sample().len(), 10176 + 576);
    // round(0.612 * 48000) + 576
    assert_eq!(s.dah_sample().len(), 29376 + 576);
}

#[test]
fn same_speed_event_changes_nothing() {
    let mut s = KeyerState::new(&tone);
    // 42 * 54 / 127 = 17.86, rounds to 18
    let r = s.apply_event(InputEvent::SpeedChanged { raw: 54 }, &tone);
    assert_eq!(r, None);
    assert_eq!(s.wpm(), 24);
}

#[test]
fn paddle_events_set_flags() {
    let mut s = KeyerState::new(&tone);
    assert!(!s.paddle_dit() && !s.paddle_dah());
    s.apply_event(InputEvent::PaddleChanged { which: Paddle::Dah, pressed: true }, &tone);
    assert!(s.paddle_dah() && !s.paddle_dit());
    s.set_paddle(Paddle::Dit, true);
    s.set_paddle(Paddle::Dah, false);
    assert!(s.paddle_dit() && !s.paddle_dah());
}

#[test]
fn exact_dot_duration_at_seven_wpm() {
    let mut s = KeyerState::new(&tone);
    s.upload_samples(7, &tone);
    assert_eq!(s.wpm(), 7);
    // dit of 1200 / 7 ms: round((1200 / 7 + 12) * 48) = round(8804.57) = 8805
    assert_eq!(s.dit_sample().len(), 8805 + 576);
    // dah of 3600 / 7 ms: round((3600 / 7 + 12) * 48) = round(25261.71) = 25262
    assert_eq!(s.dah_sample().len(), 25262 + 576);
}

#[test]
fn buffer_for_marks() {
    let s = KeyerState::new(&tone);
    assert_eq!(s.buffer_for('.'), Some(s.dit_sample()));
    assert_eq!(s.buffer_for('-'), Some(s.dah_sample()));
    assert_ne!(s.dit_sample().len(), s.dah_sample().len());
    assert_eq!(s.buffer_for('x'), None);
}
