//! The status column of track rows: selection cursor, playback marker and
//! favorite heart.

use vstd::prelude::*;
use crate::player::PlaybackStatus;
use crate::text::push_char;

verus! {

/// Marker of the loaded track when it is not running. Unlike the `>`
/// selection cursor, so the two never read as the same arrow.
pub const PAUSED_MARKER: char = '⏸';

/// Width of the status column: cursor, playback marker, heart.
pub const STATUS_WIDTH: u16 = 3;

/// Frames of the playing-row marker: two audio bars pulsing on a beat. A
/// braille cell holds both bars; each frame is a left and a right height,
/// filled from the bottom. Heights, two beats per loop:
/// `11 32 44 34 23 12 | 11 23 44 43 32 21`.
pub const PULSE: [char; 12] = ['⣀', '⣦', '⣿', '⣾', '⣴', '⣠', '⣀', '⣴', '⣿', '⣷', '⣦', '⣄'];

/// Milliseconds per frame: 100 ms reads as a beat rather than a flicker.
pub const PULSE_INTERVAL_MS: u64 = 100;

/// Frame `i` of the pulse (`0 <= i < 12`).
pub open spec fn pulse_frame(i: int) -> char {
    if i == 0 { '⣀' }
    else if i == 1 { '⣦' }
    else if i == 2 { '⣿' }
    else if i == 3 { '⣾' }
    else if i == 4 { '⣴' }
    else if i == 5 { '⣠' }
    else if i == 6 { '⣀' }
    else if i == 7 { '⣴' }
    else if i == 8 { '⣿' }
    else if i == 9 { '⣷' }
    else if i == 10 { '⣦' }
    else { '⣄' }
}

/// Left and right bar heights of frame `i`.
pub open spec fn pulse_heights(i: int) -> (int, int) {
    if i == 0 { (1, 1) }
    else if i == 1 { (3, 2) }
    else if i == 2 { (4, 4) }
    else if i == 3 { (3, 4) }
    else if i == 4 { (2, 3) }
    else if i == 5 { (1, 2) }
    else if i == 6 { (1, 1) }
    else if i == 7 { (2, 3) }
    else if i == 8 { (4, 4) }
    else if i == 9 { (4, 3) }
    else if i == 10 { (3, 2) }
    else { (2, 1) }
}

/// Braille dots of a left bar of height `h`, filled from the bottom
/// (dots 7, 3, 2, 1).
pub open spec fn left_bar_bits(h: int) -> int {
    if h <= 0 { 0 } else if h == 1 { 0x40 } else if h == 2 { 0x44 } else if h == 3 { 0x46 } else { 0x47 }
}

/// Braille dots of a right bar of height `h`, filled from the bottom
/// (dots 8, 6, 5, 4).
pub open spec fn right_bar_bits(h: int) -> int {
    if h <= 0 { 0 } else if h == 1 { 0x80 } else if h == 2 { 0xa0 } else if h == 3 { 0xb0 } else { 0xb8 }
}

/// The marker of the current track at animation step `step`: a pulse frame
/// while playing, the pause glyph otherwise.
pub open spec fn current_marker(status: PlaybackStatus, step: u64) -> char {
    if status == PlaybackStatus::Playing { pulse_frame((step % 12) as int) } else { PAUSED_MARKER }
}

/// The three characters of the status column.
pub open spec fn status_cells(is_selected: bool, is_playing: bool, is_favorite: bool, status: PlaybackStatus, step: u64) -> Seq<char> {
    seq![
        if is_selected { '>' } else { ' ' },
        if is_playing { current_marker(status, step) } else { ' ' },
        if is_favorite { '♥' } else { ' ' },
    ]
}

/// The animation step after `elapsed_ms` milliseconds of the shared clock.
pub fn pulse_step(elapsed_ms: u64) -> (step: u64)
    ensures
        step == elapsed_ms / PULSE_INTERVAL_MS,
{
    elapsed_ms / PULSE_INTERVAL_MS
}

/// Frame `i` of the pulse.
pub fn pulse(i: usize) -> (c: char)
    requires
        i < 12,
    ensures
        c == pulse_frame(i as int),
{
    PULSE[i]
}

/// The current track's marker at animation step `step`.
pub fn current_track_marker(status: PlaybackStatus, step: u64) -> (c: char)
    ensures
        c == current_marker(status, step),
{
    if status == PlaybackStatus::Playing {
        let i = (step % 12) as usize;
        PULSE[i]
    } else {
        PAUSED_MARKER
    }
}

/// Status column of a track row: `>` when selected, the playback marker
/// when it is the current track, `♥` when it is a favorite (a space
/// otherwise, for each).
pub fn track_status(is_selected: bool, is_playing: bool, is_favorite: bool, status: PlaybackStatus, step: u64) -> (s: String)
    ensures
        s@ == status_cells(is_selected, is_playing, is_favorite, status, step),
        s@.len() == STATUS_WIDTH,
{
    let mut s = String::new();
    push_char(&mut s, if is_selected { '>' } else { ' ' });
    push_char(&mut s, if is_playing { current_track_marker(status, step) } else { ' ' });
    push_char(&mut s, if is_favorite { '♥' } else { ' ' });
    assert(s@ =~= status_cells(is_selected, is_playing, is_favorite, status, step));
    s
}

/// No frame of the pulse follows itself, the loop seam included: a repeat
/// would stall the animation.
pub proof fn pulse_never_repeats(i: int)
    requires
        0 <= i < 12,
    ensures
        pulse_frame(i) != pulse_frame((i + 1) % 12),
{
}

/// Every frame is a braille cell of two bars filled from the bottom, with
/// the heights of the beat and no other dot.
pub proof fn pulse_frames_are_bottom_anchored(i: int)
    requires
        0 <= i < 12,
    ensures
        pulse_frame(i) as int - 0x2800
            == left_bar_bits(pulse_heights(i).0) + right_bar_bits(pulse_heights(i).1),
{
}

/// The status column is `STATUS_WIDTH` characters wide, whatever the row.
pub proof fn status_column_width(is_selected: bool, is_playing: bool, is_favorite: bool, status: PlaybackStatus, step: u64)
    ensures
        status_cells(is_selected, is_playing, is_favorite, status, step).len() == STATUS_WIDTH,
{
}

} // verus!
