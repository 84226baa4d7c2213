use audio_player::browser::{cursor_down, cursor_up, is_audio_extension, listing_positions};
use audio_player::transport::EntryKind;
use audio_player::readout::{bar_rows, clock_parts, progress_percent, volume_percent};

#[test]
fn cursor_wraps_both_ways() {
    assert_eq!(cursor_down(Some(0), 3), 1);
    assert_eq!(cursor_down(Some(2), 3), 0);
    assert_eq!(cursor_down(None, 3), 0);
    assert_eq!(cursor_up(Some(0), 3), 2);
    assert_eq!(cursor_up(Some(2), 3), 1);
    assert_eq!(cursor_up(None, 3), 0);
}

#[test]
fn cursor_on_empty_listing_stays_at_zero() {
    assert_eq!(cursor_down(Some(0), 0), 0);
    assert_eq!(cursor_up(Some(0), 0), 0);
}

#[test]
fn audio_extensions_in_any_case() {
    for ext in ["mp3", "flac", "wav", "ogg", "m4a", "opus", "MP3", "Flac", "OpUs"] {
        assert!(is_audio_extension(ext), "{}", ext);
    }
    for ext in ["", "txt", "mp4", "mp33", "fla", "wav ", "øgg"] {
        assert!(!is_audio_extension(ext), "{}", ext);
    }
}

#[test]
fn clock_splits_minutes_and_seconds() {
    assert_eq!(clock_parts(0), (0, 0));
    assert_eq!(clock_parts(125), (2, 5));
    assert_eq!(clock_parts(6000), (100, 0));
}

#[test]
fn progress_from_elapsed_share() {
    assert_eq!(progress_percent(1_900, 2_500), 76);
    assert_eq!(progress_percent(90_000, 180_000), 50);
    assert_eq!(progress_percent(500, 999), 0);
    assert_eq!(progress_percent(200_000, 180_000), 100);
    assert_eq!(progress_percent(59_999, 120_500), 49);
}

#[test]
fn gauges_and_bar_rows() {
    assert_eq!(volume_percent(1000), 100);
    assert_eq!(volume_percent(455), 45);
    assert_eq!(bar_rows(500, 10), 5);
    assert_eq!(bar_rows(950, 7), 6);
    assert_eq!(bar_rows(1000, 4), 4);
}

#[test]
fn listing_puts_parent_then_directories_then_tracks() {
    let kinds = vec![
        EntryKind::Track,
        EntryKind::Directory,
        EntryKind::Parent,
        EntryKind::Track,
        EntryKind::Directory,
    ];
    assert_eq!(listing_positions(&kinds), vec![2, 1, 4, 0, 3]);
    assert!(listing_positions(&Vec::new()).is_empty());
    assert_eq!(listing_positions(&vec![EntryKind::Track, EntryKind::Track]), vec![0, 1]);
}
