use jukebox::{Command, PlaybackState, MAX_VOLUME};

#[test]
fn new_handle_plays_at_full_gain() {
    let state = PlaybackState::new();
    assert!(!state.is_paused());
    assert_eq!(state.volume(), MAX_VOLUME);
}

#[test]
fn set_volume_reads_back() {
    for n in [0u32, 1, 37, 99, 100] {
        let mut state = PlaybackState::new();
        state.apply(Command::SetVolume(n));
        assert_eq!(state.volume(), n);
        let gain = state.volume() as f32 / 100.0;
        assert!((gain - n as f32 / 100.0).abs() < 1e-6);
    }
}

#[test]
fn set_volume_out_of_range_changes_nothing() {
    let mut state = PlaybackState::new();
    state.apply(Command::SetVolume(20));
    state.apply(Command::Pause);
    let before = state;
    state.apply(Command::SetVolume(101));
    state.apply(Command::SetVolume(u32::MAX));
    assert_eq!(state, before);
}

#[test]
fn pause_keeps_volume() {
    let mut state = PlaybackState::new();
    state.apply(Command::SetVolume(5));
    state.apply(Command::Pause);
    assert!(state.is_paused());
    assert_eq!(state.volume(), 5);
    state.apply(Command::Resume);
    assert!(!state.is_paused());
    assert_eq!(state.volume(), 5);
}
