//! An iambic Morse keyer: the paddle state machine, the tone synthesizer's
//! sample layout, the symbol decoder and the shared keyer state.
mod input;
mod keyer;
mod morse;
mod state;
mod synth;

pub use keyer::{
    hold_dots, lemma_dit_then_release, lemma_idle_silence, next_state, spec_continues,
    spec_decode_display, spec_hold_dots, spec_next_state, spec_word_space,
    DisplayOp, Keyer, State, DOT_US_TIMES_WPM, SymbolAccumulator,
};
pub use synth::{
    body_end, envelope_at, envelope_of, generate_sample, ramp_len, render, render_fits, render_ratio, round_div,
    spec_body_end, spec_ramp_len, Envelope, RAMP_MS, SAMPLE_RATE, SILENCE,
};
pub use morse::{
    chars_equal, copy_chars, decode, entries_view, get_morse_table, lemma_lookup_exact, lemma_table_keys_distinct, lookup,
    lookup_from,
    morse_entries, MorseEntry,
};
pub use input::{
    parse_message, spec_parse_message, spec_wpm_from_control, wpm_from_control, InputEvent, Paddle,
    CONTROL_CHANGE, NOTE_OFF, NOTE_ON, SPEED_CONTROLLER,
};
pub use state::{renders, KeyerState, KeyerView, DEFAULT_WPM, DOT_MS_TIMES_WPM, MAX_WPM};
