use vstd::prelude::*;
use crate::input::{spec_wpm_from_control, wpm_from_control, InputEvent, Paddle};
use crate::synth::{
    envelope_at, render_ratio, render_fits, spec_body_end, spec_ramp_len, Envelope, RAMP_MS,
    SAMPLE_RATE, SILENCE,
};

verus! {

/// The speed the keyer starts at, in words per minute.
pub const DEFAULT_WPM: usize = 24;

/// The highest speed the state accepts; it keeps every sample count of the
/// rendered buffers within a `usize`.
pub const MAX_WPM: usize = 1000;

/// Milliseconds in one dot duration times the speed: at `wpm` words per minute
/// a dot lasts exactly `1200 / wpm` milliseconds, that is `1.2 / wpm` seconds.
pub const DOT_MS_TIMES_WPM: usize = 1200;

/// Whether `buf` is a tone of `duration_num / duration_den` milliseconds
/// rendered with the keyer's ramp and sample rate, each sample after the first
/// as `tone` gives it.
pub open spec fn renders<F: Fn(Envelope, usize) -> u8>(
    buf: Seq<u8>,
    tone: F,
    duration_num: int,
    duration_den: int,
) -> bool {
    let rl = spec_ramp_len(RAMP_MS as int, SAMPLE_RATE as int);
    let be = spec_body_end(duration_num, duration_den, RAMP_MS as int, SAMPLE_RATE as int);
    &&& buf.len() == be + rl
    &&& buf.len() > 0 ==> buf[0] == SILENCE
    &&& forall|k: int|
        0 < k < buf.len() ==> tone.ensures((envelope_at(k, rl, be), k as usize), #[trigger] buf[k])
}

/// What a `KeyerState` holds. The dot duration is not stored: it is exactly
/// `DOT_MS_TIMES_WPM / wpm` milliseconds, and the dah three times that.
pub struct KeyerView {
    pub wpm: nat,
    pub dit_sample: Seq<u8>,
    pub dah_sample: Seq<u8>,
    pub paddle_dit: bool,
    pub paddle_dah: bool,
}

/// The record shared by the keyer loop and the input handler: the speed and
/// the two buffers rendered for it, and the paddle contacts. The speed and the
/// buffers change together, through `upload_samples` alone.
pub struct KeyerState {
    wpm: usize,
    dit_sample: Vec<u8>,
    dah_sample: Vec<u8>,
    paddle_dit: bool,
    paddle_dah: bool,
}

impl View for KeyerState {
    type V = KeyerView;

    closed spec fn view(&self) -> KeyerView {
        KeyerView {
            wpm: self.wpm as nat,
            dit_sample: self.dit_sample@,
            dah_sample: self.dah_sample@,
            paddle_dit: self.paddle_dit,
            paddle_dah: self.paddle_dah,
        }
    }
}

impl KeyerState {
    /// Both buffers belong to the current speed: the dit lasts one dot
    /// duration and the dah three.
    pub open spec fn wf<F: Fn(Envelope, usize) -> u8>(&self, tone: F) -> bool {
        &&& 1 <= self@.wpm <= MAX_WPM
        &&& renders(self@.dit_sample, tone, DOT_MS_TIMES_WPM as int, self@.wpm as int)
        &&& renders(self@.dah_sample, tone, 3 * DOT_MS_TIMES_WPM as int, self@.wpm as int)
    }

    /// The state at the default speed, both paddles open.
    pub fn new<F: Fn(Envelope, usize) -> u8>(tone: &F) -> (r: KeyerState)
        requires
            forall|e: Envelope, k: usize| tone.requires((e, k)),
        ensures
            r.wf(*tone),
            r@.wpm == DEFAULT_WPM,
            !r@.paddle_dit,
            !r@.paddle_dah,
    {
        let mut state = KeyerState {
            wpm: DEFAULT_WPM,
            dit_sample: Vec::new(),
            dah_sample: Vec::new(),
            paddle_dit: false,
            paddle_dah: false,
        };
        state.upload_samples(DEFAULT_WPM, tone);
        state
    }

    /// Sets the speed, and with it the dot duration and both buffers, at once.
    pub fn upload_samples<F: Fn(Envelope, usize) -> u8>(&mut self, speed: usize, tone: &F)
        requires
            1 <= speed <= MAX_WPM,
            forall|e: Envelope, k: usize| tone.requires((e, k)),
        ensures
            final(self).wf(*tone),
            final(self)@.wpm == speed,
            final(self)@.paddle_dit == old(self)@.paddle_dit,
            final(self)@.paddle_dah == old(self)@.paddle_dah,
    {
        assert(render_fits(3 * DOT_MS_TIMES_WPM as int, speed as int, RAMP_MS as int, SAMPLE_RATE as int));
        assert(render_fits(DOT_MS_TIMES_WPM as int, speed as int, RAMP_MS as int, SAMPLE_RATE as int));
        self.wpm = speed;
        self.dit_sample = render_ratio(DOT_MS_TIMES_WPM, speed, RAMP_MS, SAMPLE_RATE, tone);
        self.dah_sample = render_ratio(3 * DOT_MS_TIMES_WPM, speed, RAMP_MS, SAMPLE_RATE, tone);
    }

    /// The speed in words per minute.
    pub fn wpm(&self) -> (r: usize)
        ensures
            r == self@.wpm,
    {
        self.wpm
    }

    /// Whether the dit paddle is held.
    pub fn paddle_dit(&self) -> (r: bool)
        ensures
            r == self@.paddle_dit,
    {
        self.paddle_dit
    }

    /// Whether the dah paddle is held.
    pub fn paddle_dah(&self) -> (r: bool)
        ensures
            r == self@.paddle_dah,
    {
        self.paddle_dah
    }

    /// The buffer rendered for one dit.
    pub fn dit_sample(&self) -> (r: &Vec<u8>)
        ensures
            r@ == self@.dit_sample,
    {
        &self.dit_sample
    }

    /// The buffer rendered for one dah.
    pub fn dah_sample(&self) -> (r: &Vec<u8>)
        ensures
            r@ == self@.dah_sample,
    {
        &self.dah_sample
    }

    /// The buffer to play for a keyed mark: the dit buffer for `.`, the dah
    /// buffer for `-`, none for anything else.
    pub fn buffer_for(&self, mark: char) -> (r: Option<&Vec<u8>>)
        ensures
            mark == '.' ==> r is Some && r->0@ == self@.dit_sample,
            mark == '-' ==> r is Some && r->0@ == self@.dah_sample,
            mark != '.' && mark != '-' ==> r is None,
    {
        if mark == '.' {
            Some(&self.dit_sample)
        } else if mark == '-' {
            Some(&self.dah_sample)
        } else {
            None
        }
    }

    /// Records the contact of one paddle.
    pub fn set_paddle(&mut self, which: Paddle, pressed: bool)
        ensures
            final(self)@ == (KeyerView {
                paddle_dit: if which == Paddle::Dit {
                    pressed
                } else {
                    old(self)@.paddle_dit
                },
                paddle_dah: if which == Paddle::Dah {
                    pressed
                } else {
                    old(self)@.paddle_dah
                },
                ..old(self)@
            }),
    {
        match which {
            Paddle::Dit => self.paddle_dit = pressed,
            Paddle::Dah => self.paddle_dah = pressed,
        }
    }

    /// Applies an input event. A speed event that changes the speed renders
    /// the buffers anew and returns the new speed; any other event returns
    /// `None`.
    pub fn apply_event<F: Fn(Envelope, usize) -> u8>(&mut self, event: InputEvent, tone: &F) -> (r:
        Option<usize>)
        requires
            old(self).wf(*tone),
            forall|e: Envelope, k: usize| tone.requires((e, k)),
        ensures
            final(self).wf(*tone),
            match event {
                InputEvent::PaddleChanged { which, pressed } => {
                    &&& r is None
                    &&& final(self)@.wpm == old(self)@.wpm
                    &&& final(self)@.dit_sample == old(self)@.dit_sample
                    &&& final(self)@.dah_sample == old(self)@.dah_sample
                    &&& final(self)@.paddle_dit == (if which == Paddle::Dit {
                        pressed
                    } else {
                        old(self)@.paddle_dit
                    })
                    &&& final(self)@.paddle_dah == (if which == Paddle::Dah {
                        pressed
                    } else {
                        old(self)@.paddle_dah
                    })
                },
                InputEvent::SpeedChanged { raw } => {
                    let w = spec_wpm_from_control(raw as int);
                    &&& final(self)@.wpm == w
                    &&& r == (if w != old(self)@.wpm {
                        Some(w as usize)
                    } else {
                        None::<usize>
                    })
                    &&& w == old(self)@.wpm ==> final(self)@ == old(self)@
                    &&& final(self)@.paddle_dit == old(self)@.paddle_dit
                    &&& final(self)@.paddle_dah == old(self)@.paddle_dah
                },
            },
    {
        match event {
            InputEvent::PaddleChanged { which, pressed } => {
                self.set_paddle(which, pressed);
                None
            },
            InputEvent::SpeedChanged { raw } => {
                let w = wpm_from_control(raw);
                if w != self.wpm {
                    self.upload_samples(w, tone);
                    Some(w)
                } else {
                    None
                }
            },
        }
    }
}

} // verus!
