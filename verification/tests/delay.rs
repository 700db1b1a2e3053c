use z_audio_dsp::delay::DelayLine;

fn bits(x: f32) -> u32 {
    x.to_bits()
}

fn value(b: u32) -> f32 {
    f32::from_bits(b)
}

#[test]
fn integer_delay_returns_expected_samples() {
    let mut delay = DelayLine::new();
    delay.prepare(4);
    assert_eq!(value(delay.process_int(bits(1.0), 2)), 0.0);
    assert_eq!(value(delay.process_int(bits(2.0), 2)), 0.0);
    assert_eq!(value(delay.process_int(bits(3.0), 2)), 1.0);
    assert_eq!(value(delay.process_int(bits(4.0), 2)), 2.0);
}

#[test]
fn clear_resets_buffer() {
    let mut delay = DelayLine::new();
    delay.prepare(4);
    delay.push(bits(1.0));
    delay.push(bits(2.0));
    delay.clear();
    assert_eq!(value(delay.read_int(1)), 0.0);
}

#[test]
fn prepare_adds_a_guard_slot() {
    let mut delay = DelayLine::new();
    assert!(delay.is_empty());
    assert_eq!(delay.len(), 0);
    delay.prepare(0);
    assert_eq!(delay.len(), 2);
    delay.prepare(4);
    assert_eq!(delay.len(), 5);
    assert!(!delay.is_empty());
}

#[test]
fn empty_line_reads_silence_and_ignores_pushes() {
    let mut delay = DelayLine::default();
    delay.push(bits(5.0));
    assert_eq!(delay.read_int(0), 0);
    assert_eq!(delay.read_int(3), 0);
    assert_eq!(value(delay.process_int(bits(7.0), 0)), 7.0);
    assert_eq!(delay.len(), 0);
}

#[test]
fn delay_is_clamped_to_the_longest_available() {
    let mut delay = DelayLine::new();
    delay.prepare(2); // three slots
    for x in [1.0_f32, 2.0, 3.0, 4.0] {
        delay.push(bits(x));
    }
    // History oldest..newest is 2, 3, 4.
    assert_eq!(value(delay.read_int(1)), 4.0);
    assert_eq!(value(delay.read_int(2)), 3.0);
    assert_eq!(value(delay.read_int(3)), 3.0);
    assert_eq!(value(delay.read_int(100)), 3.0);
    // Delay 0 reads the oldest sample, the one the next push overwrites.
    assert_eq!(value(delay.read_int(0)), 2.0);
}

#[test]
fn long_run_wraps_around_the_storage() {
    let mut delay = DelayLine::new();
    delay.prepare(7);
    for i in 0..1000u32 {
        let out = delay.process_int(i, 5);
        if i >= 5 {
            assert_eq!(out, i - 5);
        } else {
            assert_eq!(out, 0);
        }
    }
}

#[test]
fn prepare_keeps_existing_samples_when_growing() {
    let mut delay = DelayLine::new();
    delay.prepare(1); // two slots
    delay.push(bits(1.0));
    delay.push(bits(2.0));
    delay.prepare(3); // four slots: 1, 2, then two silent slots
    assert_eq!(delay.len(), 4);
    delay.push(bits(9.0));
    assert_eq!(value(delay.read_int(1)), 9.0);
    // Oldest remaining sample is the original second slot.
    assert_eq!(value(delay.read_int(0)), 2.0);
}
