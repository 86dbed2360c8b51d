use midicwkeyer::{
    get_morse_table, hold_dots, next_state, parse_message, wpm_from_control, InputEvent, Keyer,
    Paddle, State,
};

#[test]
fn idle_dit_then_release() {
    let s = next_state(State::Idle, true, false);
    assert_eq!(s, State::Dit);
    let s = next_state(s, false, false);
    assert_eq!(s, State::PauseAfterDit);
    assert_eq!(next_state(s, false, false), State::Idle);
}

#[test]
fn squeeze_alternates() {
    assert_eq!(next_state(State::Idle, true, true), State::Dit);
    assert_eq!(next_state(State::Dit, true, true), State::PauseBeforeDah);
    assert_eq!(next_state(State::PauseBeforeDah, false, false), State::Dah);
    assert_eq!(next_state(State::Dah, true, true), State::PauseBeforeDit);
    assert_eq!(next_state(State::PauseBeforeDit, false, false), State::Dit);
}

#[test]
fn pauses_after_elements() {
    assert_eq!(next_state(State::Idle, false, true), State::Dah);
    assert_eq!(next_state(State::Dah, false, false), State::PauseAfterDah);
    assert_eq!(next_state(State::PauseAfterDah, true, false), State::Dit);
    assert_eq!(next_state(State::PauseAfterDah, false, true), State::Idle);
    assert_eq!(next_state(State::PauseAfterDit, false, true), State::Dah);
    assert_eq!(next_state(State::Idle, false, false), State::Idle);
}

#[test]
fn hold_durations() {
    assert_eq!(hold_dots(State::Idle), 0);
    assert_eq!(hold_dots(State::Dit), 1);
    assert_eq!(hold_dots(State::Dah), 3);
    assert_eq!(hold_dots(State::PauseAfterDah), 1);
}

#[test]
fn speed_mapping() {
    assert_eq!(wpm_from_control(0), 6);
    assert_eq!(wpm_from_control(127), 48);
    // 42 * 64 / 127 = 21.17
    assert_eq!(wpm_from_control(64), 27);
    // 42 * 3 / 127 = 0.99
    assert_eq!(wpm_from_control(3), 7);
}

#[test]
fn parse_paddle_messages() {
    assert_eq!(
        parse_message(&[0x90, 1, 100]),
        Some(InputEvent::PaddleChanged { which: Paddle::Dit, pressed: true })
    );
    assert_eq!(
        parse_message(&[0x93, 2, 1]),
        Some(InputEvent::PaddleChanged { which: Paddle::Dah, pressed: true })
    );
    assert_eq!(
        parse_message(&[0x90, 2, 0]),
        Some(InputEvent::PaddleChanged { which: Paddle::Dah, pressed: false })
    );
    assert_eq!(
        parse_message(&[0x80, 1, 64]),
        Some(InputEvent::PaddleChanged { which: Paddle::Dit, pressed: false })
    );
}

#[test]
fn parse_speed_and_other_messages() {
    assert_eq!(parse_message(&[0xB0, 0x3D, 127]), Some(InputEvent::SpeedChanged { raw: 127 }));
    assert_eq!(parse_message(&[0xB0, 0x3C, 127]), None);
    assert_eq!(parse_message(&[0x90, 3, 100]), None);
    assert_eq!(parse_message(&[0x90, 1]), None);
    assert_eq!(parse_message(&[]), None);
}

#[test]
fn keyer_emits_and_decodes() {
    let table = get_morse_table();
    let mut k = Keyer::new();
    assert_eq!(k.emit(), None);
    assert!(k.advance(true, false, &table).is_none());
    assert_eq!(k.state, State::Dit);
    assert_eq!(k.emit(), Some('.'));
    k.advance(false, false, &table);
    assert_eq!(k.state, State::PauseAfterDit);
    assert_eq!(k.emit(), None);
    k.advance(false, false, &table);
    assert_eq!(k.state, State::Idle);
    let op = k.advance(false, false, &table).unwrap();
    assert_eq!(op.erase, 1);
    assert_eq!(op.text, vec!['E']);
    assert_eq!(k.state, State::Idle);
}

#[test]
fn keyer_dah_emits_dash() {
    let table = get_morse_table();
    let mut k = Keyer::new();
    k.advance(false, true, &table);
    assert_eq!(k.emit(), Some('-'));
    assert_eq!(k.acc.sign, vec!['-']);
    assert_eq!(k.acc.pending, 1);
}
