use z_audio_dsp::effects::stage_hash;
use z_audio_dsp::excitation::{hammer_contact_samples, next_noise_state};

#[test]
fn xorshift_state_sequence_matches_reference() {
    let mut state = 0x1234_abcd_u32;
    for _ in 0..1000 {
        let mut x = state;
        x ^= x << 13;
        x ^= x >> 17;
        x ^= x << 5;
        let (out, next) = next_noise_state(state);
        assert_eq!(out, x);
        assert_eq!(next, x.max(1));
        assert_ne!(next, 0);
        state = next;
    }
}

#[test]
fn zero_state_is_guarded() {
    assert_eq!(next_noise_state(0), (0, 1));
}

#[test]
fn stage_hash_matches_reference_mixing() {
    for stage in [0usize, 1, 2, 17, 99] {
        for seed in [0xA511_E9B3_u32, 0x63D8_2F17] {
            let mut x = (stage as u32).wrapping_mul(0x9E37_79B9) ^ seed;
            x ^= x >> 16;
            x = x.wrapping_mul(0x7FEB_352D);
            x ^= x >> 15;
            x = x.wrapping_mul(0x846C_A68B);
            x ^= x >> 16;
            assert_eq!(stage_hash(stage, seed), x);
        }
    }
    assert_ne!(stage_hash(0, 0xA511_E9B3), stage_hash(1, 0xA511_E9B3));
}

#[test]
fn hammer_contact_is_held_to_its_range() {
    assert_eq!(hammer_contact_samples(0), 8);
    assert_eq!(hammer_contact_samples(7), 8);
    assert_eq!(hammer_contact_samples(8), 8);
    assert_eq!(hammer_contact_samples(100), 100);
    assert_eq!(hammer_contact_samples(256), 256);
    assert_eq!(hammer_contact_samples(10_000), 256);
}
