//! Binary beep encoding: a non-negative integer is rendered as its binary
//! digits, most significant first, each digit becoming one fixed-frequency
//! tone. Zero renders as the single digit 0, one low tone.

use vstd::prelude::*;

verus! {

/// Frequency of the tone for a binary digit 0 (the note A4).
pub const LOW_FREQ_HZ: u32 = 440;

/// Frequency of the tone for a binary digit 1 (the note E5).
pub const HIGH_FREQ_HZ: u32 = 659;

/// Default length of one tone, in milliseconds.
pub const DEFAULT_BEEP_MILLIS: u64 = 150;

/// Length of one tone of the warning cue, in milliseconds.
pub const LONG_BEEP_MILLIS: u64 = 300;

/// Distinguished bit pattern of the warning cue, chosen so that the warning
/// is acoustically distinct from the duration-priming cues.
pub const WARNING_BEEP_NUM: u64 = 0b1101;

/// One audible pulse: a sine tone of the given frequency and length.
#[derive(Clone, Copy, PartialEq, Eq, Structural, Debug)]
pub struct Tone {
    pub freq_hz: u32,
    pub millis: u64,
}

/// The tone that renders one binary digit.
pub open spec fn spec_tone(bit: u64, millis: u64) -> Tone {
    Tone { freq_hz: if bit == 1 { HIGH_FREQ_HZ } else { LOW_FREQ_HZ }, millis }
}

/// The full tone sequence for `v`: its binary digits, most significant
/// first; zero is the single digit 0.
pub open spec fn spec_encode(v: u64, millis: u64) -> Seq<Tone>
    decreases v,
{
    if v < 2 {
        seq![spec_tone(v, millis)]
    } else {
        spec_encode(v / 2, millis).push(spec_tone(v % 2, millis))
    }
}

/// Number of binary digits of `v`, counting one digit for zero.
pub open spec fn bit_len(v: u64) -> nat
    decreases v,
{
    if v < 2 {
        1
    } else {
        (1 + bit_len(v / 2)) as nat
    }
}

/// Law: the encoding of `v` has exactly one tone per binary digit of `v`;
/// in particular zero encodes to exactly one tone.
pub proof fn lemma_encode_len(v: u64, millis: u64)
    ensures
        spec_encode(v, millis).len() == bit_len(v),
    decreases v,
{
    if v >= 2 {
        lemma_encode_len(v / 2, millis);
    }
}

/// Law: encoding is deterministic. The tone sequence is a function of the
/// value and the tone length alone, so any two encodings of the same
/// arguments are one and the same sequence.
pub proof fn lemma_encode_deterministic(v: u64, millis: u64, a: Seq<Tone>, b: Seq<Tone>)
    requires
        a == spec_encode(v, millis),
        b == spec_encode(v, millis),
    ensures
        a == b,
{
}

/// Encode `value` as tones, one per binary digit, most significant first.
pub fn encode(value: u64, millis: u64) -> (tones: Vec<Tone>)
    ensures
        tones@ == spec_encode(value, millis),
        tones@.len() == bit_len(value),
    decreases value,
{
    proof {
        lemma_encode_len(value, millis);
    }
    if value < 2 {
        let freq: u32 = if value == 1 {
            HIGH_FREQ_HZ
        } else {
            LOW_FREQ_HZ
        };
        let mut tones: Vec<Tone> = Vec::new();
        tones.push(Tone { freq_hz: freq, millis });
        assert(tones@ =~= spec_encode(value, millis));
        tones
    } else {
        let mut tones = encode(value / 2, millis);
        let bit: u64 = value % 2;
        let freq: u32 = if bit == 1 {
            HIGH_FREQ_HZ
        } else {
            LOW_FREQ_HZ
        };
        tones.push(Tone { freq_hz: freq, millis });
        assert(tones@ =~= spec_encode(value, millis));
        tones
    }
}

/// The priming cue played before a phase starts: the phase's length in
/// minutes, at the default tone length.
pub fn priming_cue(duration_minutes: u64) -> (tones: Vec<Tone>)
    ensures
        tones@ == spec_encode(duration_minutes, DEFAULT_BEEP_MILLIS),
{
    encode(duration_minutes, DEFAULT_BEEP_MILLIS)
}

/// The warning cue: the fixed warning pattern, at the longer tone length.
pub fn warning_cue() -> (tones: Vec<Tone>)
    ensures
        tones@ == spec_encode(WARNING_BEEP_NUM, LONG_BEEP_MILLIS),
{
    encode(WARNING_BEEP_NUM, LONG_BEEP_MILLIS)
}

/// The terminal cue marking the end of a phase: the encoding of zero.
pub fn terminal_cue() -> (tones: Vec<Tone>)
    ensures
        tones@ == spec_encode(0, DEFAULT_BEEP_MILLIS),
{
    encode(0, DEFAULT_BEEP_MILLIS)
}

} // verus!
