use vstd::prelude::*;
use crate::morse::{copy_chars, decode, entries_view, lookup, MorseEntry};

verus! {

/// The states of the iambic keyer.
#[derive(Debug, Clone, Copy, PartialEq, Eq, Structural)]
pub enum State {
    Idle,
    Dit,
    Dah,
    PauseBeforeDit,
    PauseBeforeDah,
    PauseAfterDit,
    PauseAfterDah,
}

/// The transition table, with the paddle flags sampled after the hold.
pub open spec fn spec_next_state(s: State, dit: bool, dah: bool) -> State {
    match s {
        State::Idle => if dit {
            State::Dit
        } else if dah {
            State::Dah
        } else {
            State::Idle
        },
        State::Dit => if dah {
            State::PauseBeforeDah
        } else {
            State::PauseAfterDit
        },
        State::Dah => if dit {
            State::PauseBeforeDit
        } else {
            State::PauseAfterDah
        },
        State::PauseBeforeDit => State::Dit,
        State::PauseBeforeDah => State::Dah,
        State::PauseAfterDit => if dah {
            State::Dah
        } else {
            State::Idle
        },
        State::PauseAfterDah => if dit {
            State::Dit
        } else {
            State::Idle
        },
    }
}

/// How many dot durations a state is held: three for a dah, none for idle,
/// one for a dit and for every pause.
pub open spec fn spec_hold_dots(s: State) -> u64 {
    match s {
        State::Idle => 0,
        State::Dah => 3,
        _ => 1,
    }
}

/// The state that follows `s` when the paddles read `dit` and `dah`.
pub fn next_state(s: State, dit: bool, dah: bool) -> (r: State)
    ensures
        r == spec_next_state(s, dit, dah),
{
    match s {
        State::Idle => {
            if dit {
                State::Dit
            } else if dah {
                State::Dah
            } else {
                State::Idle
            }
        },
        State::Dit => {
            if dah {
                State::PauseBeforeDah
            } else {
                State::PauseAfterDit
            }
        },
        State::Dah => {
            if dit {
                State::PauseBeforeDit
            } else {
                State::PauseAfterDah
            }
        },
        State::PauseBeforeDit => State::Dit,
        State::PauseBeforeDah => State::Dah,
        State::PauseAfterDit => {
            if dah {
                State::Dah
            } else {
                State::Idle
            }
        },
        State::PauseAfterDah => {
            if dit {
                State::Dit
            } else {
                State::Idle
            }
        },
    }
}

/// The number of dot durations to hold state `s` before sampling the paddles.
pub fn hold_dots(s: State) -> (r: u64)
    ensures
        r == spec_hold_dots(s),
{
    match s {
        State::Idle => 0,
        State::Dah => 3,
        _ => 1,
    }
}

/// What the text display is to do: erase `erase` characters, then print `text`.
pub struct DisplayOp {
    pub erase: usize,
    pub text: Vec<char>,
}

/// The marks of the character being keyed, and how many characters the
/// display currently shows for it (those a later decode erases).
pub struct SymbolAccumulator {
    pub sign: Vec<char>,
    pub pending: usize,
}

/// Microseconds in one dot duration times the speed: at `wpm` words per minute
/// a dot lasts exactly `1_200_000 / wpm` microseconds.
pub const DOT_US_TIMES_WPM: u64 = 1_200_000;

/// Whether the idle wait ended with the character continuing: a paddle is
/// held again after a silence of `elapsed_us` no longer than one dot duration
/// at `wpm`.
pub open spec fn spec_continues(elapsed_us: int, wpm: int, dit: bool, dah: bool) -> bool {
    elapsed_us * wpm <= DOT_US_TIMES_WPM && (dit || dah)
}

/// Whether a silence of `elapsed_us` lasts at least five dot durations at
/// `wpm`, long enough to end the word.
pub open spec fn spec_word_space(elapsed_us: int, wpm: int) -> bool {
    elapsed_us * wpm >= 5 * DOT_US_TIMES_WPM
}

/// What the first half of the idle-decode procedure shows, as the count to
/// erase, the text to print and the new pending count.
pub open spec fn spec_decode_display(
    sign: Seq<char>,
    pending: int,
    entries: Seq<(Seq<char>, Seq<char>)>,
) -> (int, Seq<char>, int) {
    match lookup(entries, sign) {
        Some(t) => (pending, t, t.len() as int),
        None => if sign.len() > 0 {
            (0, seq![' '], pending + 1)
        } else {
            (0, Seq::<char>::empty(), pending)
        },
    }
}

impl SymbolAccumulator {
    /// An empty accumulator with nothing shown.
    pub fn new() -> (r: SymbolAccumulator)
        ensures
            r.sign@ == Seq::<char>::empty(),
            r.pending == 0,
    {
        SymbolAccumulator { sign: Vec::new(), pending: 0 }
    }

    /// Records a keyed mark, which the display shows as it is keyed.
    pub fn push_mark(&mut self, mark: char)
        requires
            old(self).pending < usize::MAX,
        ensures
            final(self).sign@ == old(self).sign@.push(mark),
            final(self).pending == old(self).pending + 1,
    {
        self.sign.push(mark);
        self.pending = self.pending + 1;
    }

    /// The first half of the idle-decode procedure. Where the marks match an
    /// entry of `table`, what is shown is erased and replaced by the token;
    /// where they match none and are not empty, a space is shown, which a
    /// later decode may erase too. The marks are kept.
    pub fn decode_pending(&mut self, table: &Vec<MorseEntry>) -> (r: DisplayOp)
        requires
            old(self).pending < usize::MAX,
        ensures
            final(self).sign@ == old(self).sign@,
            (r.erase as int, r.text@, final(self).pending as int) == spec_decode_display(
                old(self).sign@,
                old(self).pending as int,
                entries_view(table@),
            ),
    {
        match decode(table, &self.sign) {
            Some(t) => {
                let erase = self.pending;
                self.pending = t.len();
                DisplayOp { erase, text: t }
            },
            None => {
                if self.sign.len() > 0 {
                    self.pending = self.pending + 1;
                    DisplayOp { erase: 0, text: vec![' '] }
                } else {
                    DisplayOp { erase: 0, text: Vec::new() }
                }
            },
        }
    }

    /// The second half of the idle-decode procedure, after a silence of
    /// `elapsed_us` microseconds, with the paddles then reading `dit` and `dah`
    /// and the speed then `wpm`.
    ///
    /// Where the character continues, what is shown is erased and the marks are
    /// shown again, and kept. Otherwise the marks are dropped and nothing is
    /// pending; a space ends the word where the silence reached five dots.
    pub fn after_poll(&mut self, elapsed_us: u64, wpm: usize, dit: bool, dah: bool) -> (r:
        DisplayOp)
        ensures
            if spec_continues(elapsed_us as int, wpm as int, dit, dah) {
                &&& r.erase == old(self).pending
                &&& r.text@ == old(self).sign@
                &&& final(self).sign@ == old(self).sign@
                &&& final(self).pending == old(self).sign@.len()
            } else {
                &&& r.erase == 0
                &&& r.text@ == (if spec_word_space(elapsed_us as int, wpm as int) {
                    seq![' ']
                } else {
                    Seq::<char>::empty()
                })
                &&& final(self).sign@ == Seq::<char>::empty()
                &&& final(self).pending == 0
            },
    {
        assert((elapsed_us as int) * (wpm as int) <= u64::MAX * u64::MAX) by (nonlinear_arith)
            requires
                elapsed_us <= u64::MAX,
                wpm <= u64::MAX,
        ;
        let silence: u128 = elapsed_us as u128 * wpm as u128;
        if silence <= DOT_US_TIMES_WPM as u128 && (dit || dah) {
            let erase = self.pending;
            self.pending = self.sign.len();
            DisplayOp { erase, text: copy_chars(&self.sign) }
        } else {
            let text = if silence >= 5 * DOT_US_TIMES_WPM as u128 {
                vec![' ']
            } else {
                Vec::new()
            };
            self.sign = Vec::new();
            self.pending = 0;
            DisplayOp { erase: 0, text }
        }
    }
}


/// The keyer loop's own state: the state machine's state and the marks of the
/// character being keyed.
pub struct Keyer {
    pub state: State,
    pub acc: SymbolAccumulator,
}

impl Keyer {
    /// A keyer at rest, with nothing keyed.
    pub fn new() -> (r: Keyer)
        ensures
            r.state == State::Idle,
            r.acc.sign@ == Seq::<char>::empty(),
            r.acc.pending == 0,
    {
        Keyer { state: State::Idle, acc: SymbolAccumulator::new() }
    }

    /// The emit step of a tick: in `Dit` and `Dah` the mark is recorded and
    /// returned, for the display and for choosing the buffer to play.
    pub fn emit(&mut self) -> (r: Option<char>)
        requires
            old(self).acc.pending < usize::MAX,
        ensures
            final(self).state == old(self).state,
            r == (match old(self).state {
                State::Dit => Some('.'),
                State::Dah => Some('-'),
                _ => None::<char>,
            }),
            match r {
                Some(m) => {
                    &&& final(self).acc.sign@ == old(self).acc.sign@.push(m)
                    &&& final(self).acc.pending == old(self).acc.pending + 1
                },
                None => {
                    &&& final(self).acc.sign@ == old(self).acc.sign@
                    &&& final(self).acc.pending == old(self).acc.pending
                },
            },
    {
        let mark = match self.state {
            State::Dit => Some('.'),
            State::Dah => Some('-'),
            _ => None,
        };
        if let Some(m) = mark {
            self.acc.push_mark(m);
        }
        mark
    }

    /// The transition step of a tick, with the paddles reading `dit` and `dah`.
    /// In `Idle` with neither paddle held it also runs the first half of the
    /// idle-decode procedure and returns what to show.
    pub fn advance(&mut self, dit: bool, dah: bool, table: &Vec<MorseEntry>) -> (r: Option<
        DisplayOp,
    >)
        requires
            old(self).acc.pending < usize::MAX,
        ensures
            final(self).state == spec_next_state(old(self).state, dit, dah),
            if old(self).state == State::Idle && !dit && !dah {
                &&& r is Some
                &&& final(self).acc.sign@ == old(self).acc.sign@
                &&& (r->0.erase as int, r->0.text@, final(self).acc.pending as int)
                    == spec_decode_display(
                    old(self).acc.sign@,
                    old(self).acc.pending as int,
                    entries_view(table@),
                )
            } else {
                &&& r is None
                &&& final(self).acc.sign@ == old(self).acc.sign@
                &&& final(self).acc.pending == old(self).acc.pending
            },
    {
        let idle_quiet = self.state == State::Idle && !dit && !dah;
        self.state = next_state(self.state, dit, dah);
        if idle_quiet {
            Some(self.acc.decode_pending(table))
        } else {
            None
        }
    }
}

/// From `Idle` a held dit paddle starts a dit; a dit with both paddles then
/// released is followed by the pause after a dit, and that pause by `Idle`.
pub proof fn lemma_dit_then_release()
    ensures
        spec_next_state(State::Idle, true, false) == State::Dit,
        spec_next_state(State::Dit, false, false) == State::PauseAfterDit,
        spec_next_state(State::PauseAfterDit, false, false) == State::Idle,
{
}

/// With neither paddle held, a silence of exactly six dot durations drops
/// the marks and ends the word with a space, and a silence of exactly two dot
/// durations drops the marks without a space.
pub proof fn lemma_idle_silence(elapsed_us: int, wpm: int)
    requires
        wpm >= 1,
    ensures
        elapsed_us * wpm == 6 * DOT_US_TIMES_WPM ==> !spec_continues(elapsed_us, wpm, false, false)
            && spec_word_space(elapsed_us, wpm),
        elapsed_us * wpm == 2 * DOT_US_TIMES_WPM ==> !spec_continues(elapsed_us, wpm, false, false)
            && !spec_word_space(elapsed_us, wpm),
{
}

} // verus!
