//! Playback state shared by the daemon and the audio engine.

use vstd::prelude::*;
use crate::models::{AudioQuality, TrackData, track_duration};
use crate::text::{push_clock, push_all, clock};

verus! {

#[derive(Debug, Clone, Copy, PartialEq, Eq, Structural)]
pub enum PlaybackStatus {
    Stopped,
    Playing,
    Paused,
    Loading,
}

#[derive(Debug, Clone, Copy, PartialEq, Eq, Structural)]
pub enum RepeatMode {
    Off,
    Track,
    Queue,
}

/// The next repeat mode: Off, then Queue, then Track, then Off again.
pub open spec fn next_repeat(r: RepeatMode) -> RepeatMode {
    match r {
        RepeatMode::Off => RepeatMode::Queue,
        RepeatMode::Queue => RepeatMode::Track,
        RepeatMode::Track => RepeatMode::Off,
    }
}

pub fn cycle_repeat(r: RepeatMode) -> (n: RepeatMode)
    ensures
        n == next_repeat(r),
{
    match r {
        RepeatMode::Off => RepeatMode::Queue,
        RepeatMode::Queue => RepeatMode::Track,
        RepeatMode::Track => RepeatMode::Off,
    }
}

/// State of the player. (The volume, a float, is kept by the audio engine.)
#[derive(Debug)]
pub struct PlayerState {
    pub status: PlaybackStatus,
    pub current_track: Option<TrackData>,
    pub quality: AudioQuality,
    pub position_secs: u64,
    pub duration_secs: u64,
    pub shuffle: bool,
    pub repeat: RepeatMode,
    pub queue: Vec<TrackData>,
    pub queue_index: usize,
}

/// The state of a fresh player: stopped, nothing loaded, empty queue.
pub open spec fn is_initial_player(p: PlayerState) -> bool {
    &&& p.status == PlaybackStatus::Stopped
    &&& p.current_track is None
    &&& p.quality == AudioQuality::Mp3_128
    &&& p.position_secs == 0
    &&& p.duration_secs == 0
    &&& !p.shuffle
    &&& p.repeat == RepeatMode::Off
    &&& p.queue@.len() == 0
    &&& p.queue_index == 0
}

/// `"{m}:{ss} / {m}:{ss}"` of position and duration.
pub open spec fn position_text(p: PlayerState) -> Seq<char> {
    clock(p.position_secs as nat) + " / "@ + clock(p.duration_secs as nat)
}

impl PlayerState {
    pub fn new() -> (p: Self)
        ensures
            is_initial_player(p),
    {
        PlayerState {
            status: PlaybackStatus::Stopped,
            current_track: None,
            quality: AudioQuality::Mp3_128,
            position_secs: 0,
            duration_secs: 0,
            shuffle: false,
            repeat: RepeatMode::Off,
            queue: Vec::new(),
            queue_index: 0,
        }
    }

    pub fn format_position(&self) -> (s: String)
        ensures
            s@ == position_text(*self),
    {
        let mut s = String::new();
        push_clock(&mut s, self.position_secs);
        push_all(&mut s, " / ");
        push_clock(&mut s, self.duration_secs);
        s
    }

    /// Decoded audio started: the track plays from the start.
    pub fn start_playing(&mut self, track: TrackData, quality: AudioQuality)
        ensures
            *final(self) == (PlayerState {
                status: PlaybackStatus::Playing,
                current_track: Some(track),
                duration_secs: track_duration(track),
                position_secs: 0,
                quality,
                ..*old(self)
            }),
    {
        self.duration_secs = track.duration_secs();
        self.status = PlaybackStatus::Playing;
        self.current_track = Some(track);
        self.position_secs = 0;
        self.quality = quality;
    }

    /// A track is being fetched: it is shown as current, from its start.
    pub fn start_loading(&mut self, track: TrackData)
        ensures
            *final(self) == (PlayerState {
                status: PlaybackStatus::Loading,
                current_track: Some(track),
                duration_secs: track_duration(track),
                position_secs: 0,
                ..*old(self)
            }),
    {
        self.duration_secs = track.duration_secs();
        self.status = PlaybackStatus::Loading;
        self.current_track = Some(track);
        self.position_secs = 0;
    }

    /// Playback stopped: nothing loaded, position and duration cleared.
    pub fn stop(&mut self)
        ensures
            *final(self) == (PlayerState {
                status: PlaybackStatus::Stopped,
                current_track: None,
                position_secs: 0,
                duration_secs: 0,
                ..*old(self)
            }),
    {
        self.status = PlaybackStatus::Stopped;
        self.current_track = None;
        self.position_secs = 0;
        self.duration_secs = 0;
    }

    /// Queue `track` right after the current one (at the end when the
    /// position is past the end).
    pub fn insert_after_current(&mut self, track: TrackData)
        requires
            old(self).queue_index == 0 || old(self).queue_index < old(self).queue@.len(),
        ensures
            ({
                let q = old(self).queue@;
                let at = old(self).queue_index + 1;
                final(self).queue@ == (if at <= q.len() { q.insert(at, track) } else { q.push(track) })
            }),
            *final(self) == (PlayerState { queue: final(self).queue, ..*old(self) }),
    {
        let len = self.queue.len();
        let at = self.queue_index + 1;
        if at <= len {
            self.queue.insert(at, track);
        } else {
            self.queue.push(track);
        }
    }

    /// Remove queue entry `index` unless it is the current one; the position
    /// keeps pointing at the current track.
    pub fn remove_queued(&mut self, index: usize)
        ensures
            ({
                let q = old(self).queue@;
                let qi = old(self).queue_index;
                if index < q.len() && index != qi {
                    &&& final(self).queue@ == q.remove(index as int)
                    &&& *final(self) == (PlayerState {
                        queue: final(self).queue,
                        queue_index: if index < qi { (qi - 1) as usize } else { qi },
                        ..*old(self)
                    })
                } else {
                    *final(self) == *old(self)
                }
            }),
    {
        if index < self.queue.len() && index != self.queue_index {
            self.queue.remove(index);
            if index < self.queue_index {
                self.queue_index = self.queue_index - 1;
            }
        }
    }
}

} // verus!
