use z_audio_dsp::sampler::{
    active_voice_count, find_voice_slot, loop_window_active, playback_end_frame,
    playback_start_frame, release_note, sample_frame_count, sample_frame_slots,
    KeyVelocityRange, LoopMode, TriggerKind, VoiceSlot,
};

fn slot(active: bool, releasing: bool, activation_id: u64) -> VoiceSlot {
    VoiceSlot { active, releasing, activation_id, note: 60, release_trigger: false }
}

fn voice(note: u8, release_trigger: bool, activation_id: u64) -> VoiceSlot {
    VoiceSlot { active: true, releasing: false, activation_id, note, release_trigger }
}

#[test]
fn region_matches_inclusive_key_and_velocity_window() {
    let r = KeyVelocityRange { lokey: 60, hikey: 64, lovel: 10, hivel: 100 };
    assert!(r.matches(60, 10));
    assert!(r.matches(64, 100));
    assert!(r.matches(62, 50));
    assert!(!r.matches(59, 50));
    assert!(!r.matches(65, 50));
    assert!(!r.matches(62, 9));
    assert!(!r.matches(62, 101));
    let single = KeyVelocityRange { lokey: 60, hikey: 60, lovel: 0, hivel: 127 };
    assert!(single.matches(60, 0));
    assert!(!single.matches(61, 0));
}

#[test]
fn idle_voice_is_used_first() {
    let voices = [slot(true, false, 1), slot(false, false, 7), slot(false, false, 0)];
    assert_eq!(find_voice_slot(&voices), 1);
}

#[test]
fn voice_slot_prefers_a_releasing_voice_over_a_sustaining_one() {
    // Note 60 (id 1) sustains, note 64 (id 2) releases: the third note
    // steals note 64's voice rather than cutting off note 60.
    let voices = [slot(true, false, 1), slot(true, true, 2)];
    assert_eq!(find_voice_slot(&voices), 1);
}

#[test]
fn oldest_releasing_voice_is_stolen() {
    let voices = [
        slot(true, true, 9),
        slot(true, false, 1),
        slot(true, true, 4),
        slot(true, true, 4),
    ];
    assert_eq!(find_voice_slot(&voices), 2);
}

#[test]
fn oldest_voice_is_stolen_when_nothing_releases() {
    let voices = [slot(true, false, 5), slot(true, false, 3), slot(true, false, 3)];
    assert_eq!(find_voice_slot(&voices), 1);
    assert_eq!(find_voice_slot(&[]), 0);
}

#[test]
fn voice_slot_allocation_caps_polyphony() {
    let mut voices = vec![slot(false, false, 0); 2];
    for id in 1..=3u64 {
        let i = find_voice_slot(&voices);
        voices[i] = slot(true, false, id);
        assert!(active_voice_count(&voices) <= 2);
    }
    assert_eq!(active_voice_count(&voices), 2);
    // The oldest note (id 1) was the one replaced by the third note.
    assert!(voices.iter().all(|v| v.activation_id != 1));
}

#[test]
fn active_voice_count_counts_only_sounding_voices() {
    let voices = [slot(true, false, 1), slot(false, true, 2), slot(true, true, 3)];
    assert_eq!(active_voice_count(&voices), 2);
    assert_eq!(active_voice_count(&[]), 0);
}

#[test]
fn loop_window_rules() {
    assert!(loop_window_active(LoopMode::Infinite, 0, 200, 200, false));
    assert!(loop_window_active(LoopMode::Infinite, 0, 200, 200, true));
    assert!(loop_window_active(LoopMode::PingPong, 50, 250, 300, true));
    assert!(loop_window_active(LoopMode::Sustain, 0, 200, 200, false));
    assert!(!loop_window_active(LoopMode::Sustain, 0, 200, 200, true));
    assert!(!loop_window_active(LoopMode::Off, 0, 200, 200, false));
    assert!(!loop_window_active(LoopMode::Reverse, 0, 200, 200, false));
    // Window too short, inverted, or past the sample's end.
    assert!(!loop_window_active(LoopMode::Infinite, 10, 11, 200, false));
    assert!(!loop_window_active(LoopMode::Infinite, 100, 10, 200, false));
    assert!(!loop_window_active(LoopMode::Infinite, 0, 201, 200, false));
    assert!(loop_window_active(LoopMode::Infinite, 10, 12, 200, false));
}

#[test]
fn playback_start_frame_rules() {
    assert_eq!(playback_start_frame(LoopMode::Off, 48_000, 24_000), 24_000);
    assert_eq!(playback_start_frame(LoopMode::Sustain, 10, 3), 3);
    // Reverse playback always starts at the sample's last frame.
    assert_eq!(playback_start_frame(LoopMode::Reverse, 4000, 0), 3999);
    assert_eq!(playback_start_frame(LoopMode::Reverse, 4000, 999), 3999);
    assert_eq!(playback_start_frame(LoopMode::Reverse, 4000, 5000), 3999);
    assert_eq!(playback_start_frame(LoopMode::Reverse, 0, 0), 0);
}

#[test]
fn playback_end_frame_rules() {
    // Reverse playback runs down to the offset.
    assert_eq!(playback_end_frame(LoopMode::Reverse, 4000, 0), 0);
    assert_eq!(playback_end_frame(LoopMode::Reverse, 4000, 999), 999);
    // Forward playback ends at the last frame.
    assert_eq!(playback_end_frame(LoopMode::Off, 4000, 999), 3999);
    assert_eq!(playback_end_frame(LoopMode::Sustain, 10, 3), 9);
    assert_eq!(playback_end_frame(LoopMode::Off, 0, 0), 0);
}

#[test]
fn sample_frame_layout() {
    assert_eq!(sample_frame_count(1, 10), 10);
    assert_eq!(sample_frame_count(2, 10), 5);
    assert_eq!(sample_frame_count(2, 11), 5);
    // Any channel count other than two is read as mono.
    assert_eq!(sample_frame_count(3, 9), 9);
    assert_eq!(sample_frame_slots(1, 10, 4), (4, 4));
    assert_eq!(sample_frame_slots(2, 10, 4), (8, 9));
    assert_eq!(sample_frame_slots(3, 9, 8), (8, 8));
}

#[test]
fn trigger_kinds_are_distinct() {
    assert_ne!(TriggerKind::Attack, TriggerKind::Release);
}

#[test]
fn note_off_releases_only_attack_voices_of_that_note() {
    let mut voices = vec![
        voice(60, false, 1),
        voice(60, true, 2),
        voice(64, false, 3),
        VoiceSlot { active: false, ..voice(60, false, 4) },
    ];
    release_note(&mut voices, 60);
    assert!(voices[0].releasing);
    assert!(!voices[1].releasing, "release-trigger voice is unaffected by note-off");
    assert!(!voices[2].releasing);
    assert!(!voices[3].releasing);
    let after_first = voices.clone();
    release_note(&mut voices, 60);
    assert_eq!(voices, after_first);
}

#[test]
fn released_voice_becomes_the_steal_candidate() {
    // Notes 60 and 64 sound; note-off on 64 makes its voice the one a third
    // note takes over.
    let mut voices = vec![voice(60, false, 1), voice(64, false, 2)];
    release_note(&mut voices, 64);
    assert_eq!(find_voice_slot(&voices), 1);
}
