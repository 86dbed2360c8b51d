use vstd::prelude::*;
use vstd::arithmetic::div_mod::{
    lemma_div_denominator, lemma_div_is_ordered, lemma_div_is_ordered_by_denominator,
    lemma_div_multiples_vanish,
};

verus! {

/// Samples per second of the rendered tone.
pub const SAMPLE_RATE: usize = 48000;

/// Length of the rising and of the falling ramp, in milliseconds.
pub const RAMP_MS: usize = 12;

/// The sample value of silence, the centre of the unsigned 8-bit range.
pub const SILENCE: u8 = 128;

/// Where a sample stands in the envelope of a rendered tone.
///
/// `Rising` and `Falling` carry the sample's index within its ramp and the
/// ramp's length; the envelope there is `0.5 * (1 - cos(pi * pos / len))`
/// rising and `0.5 * (1 + cos(pi * pos / len))` falling. `Full` is the sustain.
#[derive(Debug, Clone, Copy, PartialEq, Eq, Structural)]
pub enum Envelope {
    Rising { pos: usize, len: usize },
    Full,
    Falling { pos: usize, len: usize },
}

/// `a / b` rounded to the nearest integer, halves upward.
pub open spec fn round_div(a: int, b: int) -> int {
    (2 * a + b) / (2 * b)
}

/// Number of samples in one ramp: `round(ramp_ms / 1000 * sample_rate)`.
pub open spec fn spec_ramp_len(ramp_ms: int, sample_rate: int) -> int {
    round_div(ramp_ms * sample_rate, 1000)
}

/// End of the sustain of a tone of `duration_num / duration_den` milliseconds:
/// `round((duration + ramp_ms) / 1000 * sample_rate)`.
pub open spec fn spec_body_end(duration_num: int, duration_den: int, ramp_ms: int, sample_rate: int) -> int {
    round_div((duration_num + ramp_ms * duration_den) * sample_rate, 1000 * duration_den)
}

/// The envelope position of absolute sample index `k`.
pub open spec fn envelope_at(k: int, ramp_len: int, body_end: int) -> Envelope {
    if k < ramp_len {
        Envelope::Rising { pos: k as usize, len: ramp_len as usize }
    } else if k < body_end {
        Envelope::Full
    } else {
        Envelope::Falling { pos: (k - body_end) as usize, len: ramp_len as usize }
    }
}

/// The inputs of `render_ratio` for which every intermediate value fits a
/// `usize`.
pub open spec fn render_fits(duration_num: int, duration_den: int, ramp_ms: int, sample_rate: int) -> bool {
    &&& 1 <= duration_den
    &&& 0 <= ramp_ms * duration_den
    &&& duration_num + ramp_ms * duration_den <= usize::MAX
    &&& 2 * ((duration_num + ramp_ms * duration_den) * sample_rate) + 2000 * duration_den <= usize::MAX
}

proof fn lemma_ramp_within_body(duration_num: int, duration_den: int, ramp_ms: int, sample_rate: int)
    requires
        0 <= duration_num,
        1 <= duration_den,
        0 <= ramp_ms,
        0 <= sample_rate,
    ensures
        0 <= spec_ramp_len(ramp_ms, sample_rate) <= spec_body_end(
            duration_num,
            duration_den,
            ramp_ms,
            sample_rate,
        ),
        2 * spec_body_end(duration_num, duration_den, ramp_ms, sample_rate) <= 2 * ((duration_num
            + ramp_ms * duration_den) * sample_rate) + 2000 * duration_den,
{
    let d = duration_den;
    let r = ramp_ms * sample_rate;
    let a = (duration_num + ramp_ms * d) * sample_rate;
    assert(0 <= r && 0 <= a) by (nonlinear_arith)
        requires
            0 <= duration_num,
            0 <= ramp_ms,
            0 <= sample_rate,
            r == ramp_ms * sample_rate,
            a == (duration_num + ramp_ms * d) * sample_rate,
            1 <= d,
    ;
    assert(2 * a + 1000 * d >= 0);
    // the ramp length, brought over the denominator of the body end
    let x = 2 * r + 1000;
    assert((x * d) / (2000 * d) == x / 2000) by {
        lemma_div_denominator(x * d, d, 2000);
        lemma_div_multiples_vanish(x, d);
        assert(d * x == x * d) by (nonlinear_arith);
        assert(d * 2000 == 2000 * d);
    }
    assert(x * d == 2 * (r * d) + 1000 * d) by (nonlinear_arith)
        requires
            x == 2 * r + 1000,
    ;
    assert(r * d <= a) by (nonlinear_arith)
        requires
            r == ramp_ms * sample_rate,
            a == (duration_num + ramp_ms * d) * sample_rate,
            0 <= duration_num,
            0 <= sample_rate,
            1 <= d,
    ;
    lemma_div_is_ordered(x * d, 2 * a + 1000 * d, 2000 * d);
    lemma_div_is_ordered_by_denominator(2 * a + 1000 * d, 2, 2000 * d);
    assert(2 * ((2 * a + 1000 * d) / 2) <= 2 * a + 1000 * d);
}

/// The number of samples in one ramp, `round(ramp_ms / 1000 * sample_rate)`.
pub fn ramp_len(ramp_ms: usize, sample_rate: usize) -> (r: usize)
    requires
        2 * (ramp_ms * sample_rate) + 1000 <= usize::MAX,
    ensures
        r == spec_ramp_len(ramp_ms as int, sample_rate as int),
{
    assert(0 <= ramp_ms * sample_rate) by (nonlinear_arith);
    (2 * (ramp_ms * sample_rate) + 1000) / 2000
}

/// The index where the sustain of a tone of `duration_num / duration_den`
/// milliseconds ends, `round((duration + ramp_ms) / 1000 * sample_rate)`.
pub fn body_end(duration_num: usize, duration_den: usize, ramp_ms: usize, sample_rate: usize) -> (r:
    usize)
    requires
        render_fits(duration_num as int, duration_den as int, ramp_ms as int, sample_rate as int),
    ensures
        r == spec_body_end(duration_num as int, duration_den as int, ramp_ms as int, sample_rate as int),
{
    assert(0 <= (duration_num + ramp_ms * duration_den) * sample_rate) by (nonlinear_arith)
        requires
            0 <= ramp_ms * duration_den,
    ;
    let a = (duration_num + ramp_ms * duration_den) * sample_rate;
    (2 * a + 1000 * duration_den) / (2000 * duration_den)
}

/// The envelope position of sample `k` in a tone whose ramps are `ramp_len`
/// samples long and whose sustain ends at `body_end`.
pub fn envelope_of(k: usize, ramp_len: usize, body_end: usize) -> (r: Envelope)
    requires
        ramp_len <= body_end,
        k < body_end + ramp_len,
    ensures
        r == envelope_at(k as int, ramp_len as int, body_end as int),
{
    if k < ramp_len {
        Envelope::Rising { pos: k, len: ramp_len }
    } else if k < body_end {
        Envelope::Full
    } else {
        Envelope::Falling { pos: k - body_end, len: ramp_len }
    }
}

/// Renders one enveloped tone of `duration_num / duration_den` milliseconds:
/// a rising ramp, a sustain up to `body_end`, then a falling ramp of the same
/// length appended, so that the buffer holds `body_end + ramp_len` samples.
///
/// `tone(env, k)` gives the sample at absolute index `k`,
/// `round(128 + amplitude * envelope * sin(2 pi frequency k / sample_rate))`;
/// the phase runs on across the three segments. The first sample has phase
/// zero and is silence whatever the envelope.
pub fn render_ratio<F: Fn(Envelope, usize) -> u8>(
    duration_num: usize,
    duration_den: usize,
    ramp_ms: usize,
    sample_rate: usize,
    tone: &F,
) -> (r: Vec<u8>)
    requires
        render_fits(duration_num as int, duration_den as int, ramp_ms as int, sample_rate as int),
        forall|e: Envelope, k: usize| tone.requires((e, k)),
    ensures
        r@.len() == spec_body_end(
            duration_num as int,
            duration_den as int,
            ramp_ms as int,
            sample_rate as int,
        ) + spec_ramp_len(ramp_ms as int, sample_rate as int),
        r@.len() > 0 ==> r@[0] == SILENCE,
        forall|k: int|
            0 < k < r@.len() ==> tone.ensures(
                (
                    envelope_at(
                        k,
                        spec_ramp_len(ramp_ms as int, sample_rate as int),
                        spec_body_end(
                            duration_num as int,
                            duration_den as int,
                            ramp_ms as int,
                            sample_rate as int,
                        ),
                    ),
                    k as usize,
                ),
                #[trigger] r@[k],
            ),
{
    proof {
        lemma_ramp_within_body(
            duration_num as int,
            duration_den as int,
            ramp_ms as int,
            sample_rate as int,
        );
        assert(ramp_ms * sample_rate <= (duration_num + ramp_ms * duration_den) * sample_rate)
            by (nonlinear_arith)
            requires
                ramp_ms >= 0,
                duration_num >= 0,
                duration_den >= 1,
                sample_rate >= 0,
        ;
    }
    let rl = ramp_len(ramp_ms, sample_rate);
    let be = body_end(duration_num, duration_den, ramp_ms, sample_rate);
    let total = be + rl;
    let mut out: Vec<u8> = Vec::with_capacity(total);
    let mut k: usize = 0;
    while k < total
        invariant
            rl <= be,
            total == be + rl,
            rl == spec_ramp_len(ramp_ms as int, sample_rate as int),
            be == spec_body_end(
                duration_num as int,
                duration_den as int,
                ramp_ms as int,
                sample_rate as int,
            ),
            forall|e: Envelope, j: usize| tone.requires((e, j)),
            k <= total,
            out@.len() == k,
            k > 0 ==> out@[0] == SILENCE,
            forall|j: int|
                0 < j < k ==> tone.ensures(
                    (envelope_at(j, rl as int, be as int), j as usize),
                    #[trigger] out@[j],
                ),
        decreases total - k,
    {
        if k == 0 {
            out.push(SILENCE);
        } else {
            let env = envelope_of(k, rl, be);
            let s = tone(env, k);
            out.push(s);
        }
        k = k + 1;
    }
    out
}

/// Renders one enveloped tone of a whole number of milliseconds.
pub fn render<F: Fn(Envelope, usize) -> u8>(
    duration_ms: usize,
    ramp_ms: usize,
    sample_rate: usize,
    tone: &F,
) -> (r: Vec<u8>)
    requires
        render_fits(duration_ms as int, 1, ramp_ms as int, sample_rate as int),
        forall|e: Envelope, k: usize| tone.requires((e, k)),
    ensures
        r@.len() == spec_body_end(duration_ms as int, 1, ramp_ms as int, sample_rate as int)
            + spec_ramp_len(ramp_ms as int, sample_rate as int),
        r@.len() > 0 ==> r@[0] == SILENCE,
        forall|k: int|
            0 < k < r@.len() ==> tone.ensures(
                (
                    envelope_at(
                        k,
                        spec_ramp_len(ramp_ms as int, sample_rate as int),
                        spec_body_end(duration_ms as int, 1, ramp_ms as int, sample_rate as int),
                    ),
                    k as usize,
                ),
                #[trigger] r@[k],
            ),
{
    render_ratio(duration_ms, 1, ramp_ms, sample_rate, tone)
}

/// Renders a tone of `duration_ms` with the keyer's ramp and sample rate.
pub fn generate_sample<F: Fn(Envelope, usize) -> u8>(duration_ms: usize, tone: &F) -> (r: Vec<u8>)
    requires
        render_fits(duration_ms as int, 1, RAMP_MS as int, SAMPLE_RATE as int),
        forall|e: Envelope, k: usize| tone.requires((e, k)),
    ensures
        r@.len() == spec_body_end(duration_ms as int, 1, RAMP_MS as int, SAMPLE_RATE as int)
            + spec_ramp_len(RAMP_MS as int, SAMPLE_RATE as int),
        r@.len() > 0 ==> r@[0] == SILENCE,
        forall|k: int|
            0 < k < r@.len() ==> tone.ensures(
                (
                    envelope_at(
                        k,
                        spec_ramp_len(RAMP_MS as int, SAMPLE_RATE as int),
                        spec_body_end(duration_ms as int, 1, RAMP_MS as int, SAMPLE_RATE as int),
                    ),
                    k as usize,
                ),
                #[trigger] r@[k],
            ),
{
    render(duration_ms, RAMP_MS, SAMPLE_RATE, tone)
}

} // verus!
