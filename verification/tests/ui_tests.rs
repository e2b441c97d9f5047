use deezer_tui::player::PlaybackStatus;
use deezer_tui::ui::{track_status, pulse_step, PAUSED_MARKER, PULSE, STATUS_WIDTH};

#[test]
fn track_status_displays_expected_characters() {
    let paused = PlaybackStatus::Paused;
    assert_eq!(track_status(true, true, true, paused, 0), format!(">{PAUSED_MARKER}♥"));
    assert_eq!(track_status(false, false, false, paused, 0), "   ");
    assert_eq!(track_status(true, false, true, paused, 0), "> ♥");
    assert_eq!(track_status(false, true, false, paused, 0), format!(" {PAUSED_MARKER} "));
}

#[test]
fn every_marker_is_one_cell_wide() {
    for frame in PULSE {
        assert_eq!(frame.to_string().chars().count(), 1, "{frame:?}");
    }
    assert_eq!(PAUSED_MARKER.to_string().chars().count(), 1);
}

#[test]
fn status_column_matches_its_declared_width() {
    for status in [PlaybackStatus::Playing, PlaybackStatus::Paused] {
        for is_current in [true, false] {
            let line = track_status(true, is_current, true, status, 3);
            assert_eq!(line.chars().count(), STATUS_WIDTH as usize);
        }
    }
}

#[test]
fn track_status_pulses_while_playing() {
    let s = track_status(false, true, false, PlaybackStatus::Playing, 7);
    assert_eq!(s.chars().count(), STATUS_WIDTH as usize);
    let marker = s.chars().nth(1).unwrap();
    assert!(PULSE.contains(&marker), "{s:?}");
}

#[test]
fn track_status_leaves_other_rows_blank_while_playing() {
    assert_eq!(track_status(false, false, false, PlaybackStatus::Playing, 5), "   ");
}

fn bar_heights(frame: char) -> (usize, usize) {
    let bits = frame as u32 - 0x2800;
    let height = |dots: [u32; 4]| dots.iter().take_while(|d| bits & **d != 0).count();
    (height([0x40, 0x04, 0x02, 0x01]), height([0x80, 0x20, 0x10, 0x08]))
}

#[test]
fn pulse_frames_are_two_bottom_anchored_bars() {
    let expected = [
        (1, 1), (3, 2), (4, 4), (3, 4), (2, 3), (1, 2),
        (1, 1), (2, 3), (4, 4), (4, 3), (3, 2), (2, 1),
    ];
    for (frame, want) in PULSE.iter().zip(expected) {
        let bits = *frame as u32 - 0x2800;
        let (left, right) = bar_heights(*frame);
        assert_eq!((left, right), want, "{frame:?}");
        let filled = [0x40u32, 0x04, 0x02, 0x01][..left].iter().sum::<u32>()
            + [0x80u32, 0x20, 0x10, 0x08][..right].iter().sum::<u32>();
        assert_eq!(bits, filled, "{frame:?} has a floating dot");
    }
}

#[test]
fn pulse_never_repeats_a_frame_back_to_back() {
    for pair in PULSE.windows(2) {
        assert_ne!(pair[0], pair[1]);
    }
    assert_ne!(PULSE[PULSE.len() - 1], PULSE[0], "loop seam");
}

#[test]
fn pulse_advances_every_interval() {
    assert_eq!(pulse_step(0), 0);
    assert_eq!(pulse_step(99), 0);
    assert_eq!(pulse_step(100), 1);
    let at = |ms: u64| track_status(false, true, false, PlaybackStatus::Playing, pulse_step(ms)).chars().nth(1).unwrap();
    assert_eq!(at(0), PULSE[0]);
    assert_eq!(at(250), PULSE[2]);
    assert_eq!(at(1250), PULSE[0]);
}
