use pomodoro::beep::{
    encode, priming_cue, terminal_cue, warning_cue, Tone, DEFAULT_BEEP_MILLIS, HIGH_FREQ_HZ,
    LONG_BEEP_MILLIS, LOW_FREQ_HZ, WARNING_BEEP_NUM,
};

fn low(millis: u64) -> Tone {
    Tone { freq_hz: LOW_FREQ_HZ, millis }
}

fn high(millis: u64) -> Tone {
    Tone { freq_hz: HIGH_FREQ_HZ, millis }
}

#[test]
fn encode_zero_is_single_low_tone() {
    let tones = encode(0, DEFAULT_BEEP_MILLIS);
    assert_eq!(tones, vec![low(DEFAULT_BEEP_MILLIS)]);
}

#[test]
fn encode_one_is_single_high_tone() {
    let tones = encode(1, DEFAULT_BEEP_MILLIS);
    assert_eq!(tones, vec![high(DEFAULT_BEEP_MILLIS)]);
}

#[test]
fn encode_renders_binary_most_significant_first() {
    // 13 is 1101 in binary: high, high, low, high.
    let tones = encode(13, 150);
    assert_eq!(tones, vec![high(150), high(150), low(150), high(150)]);
    // 10 is 1010 in binary: high, low, high, low.
    let tones = encode(10, 150);
    assert_eq!(tones, vec![high(150), low(150), high(150), low(150)]);
}

#[test]
fn encode_length_is_bit_length() {
    assert_eq!(encode(0, 150).len(), 1);
    assert_eq!(encode(1, 150).len(), 1);
    assert_eq!(encode(2, 150).len(), 2);
    assert_eq!(encode(3, 150).len(), 2);
    assert_eq!(encode(4, 150).len(), 3);
    assert_eq!(encode(30, 150).len(), 5);
    assert_eq!(encode(255, 150).len(), 8);
    assert_eq!(encode(256, 150).len(), 9);
    assert_eq!(encode(u64::MAX, 150).len(), 64);
}

#[test]
fn encode_is_deterministic() {
    for v in [0u64, 1, 5, 13, 30, 1023, u64::MAX] {
        assert_eq!(encode(v, 150), encode(v, 150));
        assert_eq!(encode(v, 300), encode(v, 300));
    }
}

#[test]
fn encode_keeps_the_given_tone_length() {
    for tone in encode(13, 300) {
        assert_eq!(tone.millis, 300);
    }
}

#[test]
fn priming_cue_encodes_the_duration() {
    assert_eq!(priming_cue(30), encode(30, DEFAULT_BEEP_MILLIS));
    assert_eq!(priming_cue(0), vec![low(DEFAULT_BEEP_MILLIS)]);
}

#[test]
fn warning_cue_is_the_fixed_pattern_with_long_tones() {
    assert_eq!(warning_cue(), encode(WARNING_BEEP_NUM, LONG_BEEP_MILLIS));
    // The fixed pattern is 1101: high, high, low, high, each 300 ms.
    assert_eq!(
        warning_cue(),
        vec![high(LONG_BEEP_MILLIS), high(LONG_BEEP_MILLIS), low(LONG_BEEP_MILLIS), high(LONG_BEEP_MILLIS)]
    );
}

#[test]
fn terminal_cue_encodes_zero() {
    assert_eq!(terminal_cue(), vec![low(DEFAULT_BEEP_MILLIS)]);
}
