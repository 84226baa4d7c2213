use audio_player::transport::{
    next_track_index, previous_track_index, Action, EntryKind, PlayState, Transport,
    DEFAULT_TOTAL_MS,
};

fn three_tracks() -> Vec<EntryKind> {
    vec![EntryKind::Track, EntryKind::Track, EntryKind::Track]
}

#[test]
fn end_of_track_wraps_under_continuous_play() {
    let mut t = Transport::new(three_tracks());
    t.toggle_continuous();
    assert_eq!(t.select(2), Action::Start(2));
    t.started(2, Some(60_000), 1_000);
    let a = t.tick(70_000, true);
    assert_eq!(a, Action::Start(0));
    t.started(0, Some(60_000), 70_050);
    assert_eq!(t.state(), PlayState::Playing);
    assert_eq!(t.current_index(), Some(0));
}

#[test]
fn end_of_track_stops_without_continuous_play() {
    let mut t = Transport::new(three_tracks());
    t.started(2, Some(60_000), 1_000);
    let a = t.tick(70_000, true);
    assert_eq!(a, Action::Nothing);
    assert_eq!(t.state(), PlayState::Stopped);
    assert_eq!(t.current_index(), Some(2));
    assert_eq!(t.elapsed_ms(), 0);
}

#[test]
fn next_and_previous_from_middle() {
    for continuous in [false, true] {
        let mut t = Transport::new(three_tracks());
        if continuous {
            t.toggle_continuous();
        }
        t.started(1, None, 0);
        assert_eq!(t.next(), Action::Start(2));
        assert_eq!(t.previous(), Action::Start(0));
    }
}

#[test]
fn next_skips_directories_and_parent() {
    let e = vec![
        EntryKind::Parent,
        EntryKind::Directory,
        EntryKind::Track,
        EntryKind::Directory,
        EntryKind::Track,
    ];
    assert_eq!(next_track_index(&e, 2, false), Some(4));
    assert_eq!(next_track_index(&e, 4, false), None);
    assert_eq!(next_track_index(&e, 4, true), Some(2));
    assert_eq!(previous_track_index(&e, 4), Some(2));
    assert_eq!(previous_track_index(&e, 2), None);
}

#[test]
fn next_off_the_end_stops() {
    let mut t = Transport::new(three_tracks());
    t.started(2, None, 0);
    assert_eq!(t.next(), Action::Halt);
    assert_eq!(t.state(), PlayState::Stopped);
    assert_eq!(t.current_index(), Some(2));
}

#[test]
fn previous_at_start_does_nothing() {
    let mut t = Transport::new(three_tracks());
    t.started(0, None, 0);
    assert_eq!(t.previous(), Action::Nothing);
    assert_eq!(t.state(), PlayState::Playing);
}

#[test]
fn select_routes_by_entry_kind() {
    let t = Transport::new(vec![EntryKind::Parent, EntryKind::Directory, EntryKind::Track]);
    assert_eq!(t.select(0), Action::Enter(0));
    assert_eq!(t.select(1), Action::Enter(1));
    assert_eq!(t.select(2), Action::Start(2));
    assert_eq!(t.select(3), Action::Nothing);
}

#[test]
fn started_sets_defaults_and_clears_error() {
    let mut t = Transport::new(three_tracks());
    t.record_error(String::from("cannot decode"));
    assert_eq!(t.error().as_deref(), Some("cannot decode"));
    assert_eq!(t.state(), PlayState::Stopped);
    t.started(1, None, 5);
    assert_eq!(t.total_ms(), DEFAULT_TOTAL_MS);
    assert_eq!(t.total_ms(), 180_000);
    assert!(t.error().is_none());
    assert!(t.is_playing());
}

#[test]
fn failed_start_keeps_playback() {
    let mut t = Transport::new(three_tracks());
    t.started(0, Some(10_000), 0);
    t.record_error(String::from("missing file"));
    assert_eq!(t.state(), PlayState::Playing);
    assert_eq!(t.current_index(), Some(0));
    assert_eq!(t.error().as_deref(), Some("missing file"));
}

#[test]
fn tick_tracks_elapsed_capped_at_total() {
    let mut t = Transport::new(three_tracks());
    t.started(0, Some(10_000), 1_000);
    assert_eq!(t.tick(4_500, false), Action::Nothing);
    assert_eq!(t.elapsed_ms(), 3_500);
    t.tick(50_000, false);
    assert_eq!(t.elapsed_ms(), 10_000);
    t.tick(500, false);
    assert_eq!(t.elapsed_ms(), 0);
}

#[test]
fn toggle_pauses_then_restarts() {
    let mut t = Transport::new(three_tracks());
    assert_eq!(t.toggle(), Action::Nothing);
    t.started(1, Some(10_000), 0);
    assert_eq!(t.toggle(), Action::Halt);
    assert_eq!(t.state(), PlayState::Paused);
    assert_eq!(t.tick(3_000, true), Action::Nothing);
    assert_eq!(t.state(), PlayState::Paused);
    assert_eq!(t.toggle(), Action::Restart);
    t.restarted(Some(10_000), 4_000);
    assert_eq!(t.state(), PlayState::Playing);
    assert_eq!(t.elapsed_ms(), 0);
    t.tick(5_000, false);
    assert_eq!(t.elapsed_ms(), 1_000);
}

#[test]
fn toggle_continuous_flips() {
    let mut t = Transport::new(three_tracks());
    assert!(!t.continuous());
    t.toggle_continuous();
    assert!(t.continuous());
    t.toggle_continuous();
    assert!(!t.continuous());
}

#[test]
fn new_listing_keeps_playback() {
    let mut t = Transport::new(three_tracks());
    t.started(1, None, 0);
    t.set_entries(vec![EntryKind::Parent, EntryKind::Track]);
    assert_eq!(t.entries().len(), 2);
    assert_eq!(t.state(), PlayState::Playing);
    assert_eq!(t.current_index(), Some(1));
}
