//! Starting tracks and moving through the queue.

use vstd::prelude::*;
use crate::models::{TrackData, track_duration};
use crate::player::{PlaybackStatus, RepeatMode, PlayerState};
use crate::daemon::{Daemon, Effect, StatusMsg};

verus! {

/// `pre` with a new queue (given by `post`'s queue) positioned at `i`.
pub open spec fn with_queue(pre: Daemon, post: Daemon, i: int) -> Daemon {
    Daemon { player: PlayerState { queue: post.player.queue, queue_index: i as usize, ..pre.player }, ..pre }
}

/// The state and effects after asking to play `track` (the queue already
/// set): refused when offline or when the key is missing, otherwise a new
/// fetch generation starts and the track shows as loading.
#[verifier::opaque]
pub open spec fn plays(pre: Daemon, post: Daemon, track: TrackData, eff: Seq<Effect>) -> bool {
    if pre.is_offline {
        post == Daemon { status_msg: Some(StatusMsg::NoInternet), ..pre } && eff == Seq::<Effect>::empty()
    } else if pre.master_key is None {
        post == Daemon { status_msg: Some(StatusMsg::PlayerNotReady), ..pre } && eff == Seq::<Effect>::empty()
    } else {
        let g = pre.track_generation.wrapping_add(1);
        &&& post == Daemon {
            track_generation: g,
            player: PlayerState {
                status: PlaybackStatus::Loading,
                current_track: Some(track),
                duration_secs: track_duration(track),
                position_secs: 0,
                ..pre.player
            },
            status_msg: Some(StatusMsg::Loading),
            ..pre
        }
        &&& eff == seq![Effect::FetchTrack { track, generation: g, quality: pre.quality, master_key: pre.master_key->0 }]
    }
}

/// The state and effects after asking to play an offline track (queue
/// already set).
#[verifier::opaque]
pub open spec fn plays_offline(pre: Daemon, post: Daemon, track: TrackData, eff: Seq<Effect>) -> bool {
    let g = pre.track_generation.wrapping_add(1);
    &&& post == Daemon {
        track_generation: g,
        player: PlayerState {
            status: PlaybackStatus::Loading,
            current_track: Some(track),
            duration_secs: track_duration(track),
            position_secs: 0,
            ..pre.player
        },
        status_msg: Some(StatusMsg::Loading),
        ..pre
    }
    &&& eff == seq![Effect::LoadOfflineTrack { track, generation: g }]
}

/// Resuming a paused track: the sink resumes and the clock restarts, when
/// there is an engine.
#[verifier::opaque]
pub open spec fn resumes(pre: Daemon, post: Daemon, now: u64, eff: Seq<Effect>) -> bool {
    if pre.has_engine {
        &&& post == Daemon {
            player: PlayerState { status: PlaybackStatus::Playing, ..pre.player },
            playback_started_at: Some(now),
            ..pre
        }
        &&& eff == seq![Effect::EngineResume]
    } else {
        post == pre && eff == Seq::<Effect>::empty()
    }
}

/// `pre` with the queue position moved to `i`.
pub open spec fn at_index(pre: Daemon, i: int) -> Daemon {
    Daemon { player: PlayerState { queue_index: i as usize, ..pre.player }, ..pre }
}

/// Skipping forward: a random track with shuffle; else the next one, or the
/// first with repeat-queue at the end; at the end without repeat a paused
/// track resumes and nothing else happens.
pub open spec fn advances(pre: Daemon, post: Daemon, now: u64, random: u64, eff: Seq<Effect>) -> bool {
    let q = pre.player.queue@;
    if q.len() == 0 {
        post == pre && eff == Seq::<Effect>::empty()
    } else if pre.player.shuffle {
        let i = (random as int) % (q.len() as int);
        plays(at_index(pre, i), post, q[i], eff)
    } else if pre.player.queue_index + 1 >= q.len() {
        if pre.player.repeat == RepeatMode::Queue {
            plays(at_index(pre, 0), post, q[0], eff)
        } else if pre.player.status == PlaybackStatus::Paused {
            resumes(pre, post, now, eff)
        } else {
            post == pre && eff == Seq::<Effect>::empty()
        }
    } else {
        let i = pre.player.queue_index + 1;
        plays(at_index(pre, i), post, q[i], eff)
    }
}

/// Skipping back: the previous track, or the last with repeat-queue at the
/// start; at the start without repeat a paused track resumes.
pub open spec fn goes_back(pre: Daemon, post: Daemon, now: u64, eff: Seq<Effect>) -> bool {
    let q = pre.player.queue@;
    if q.len() == 0 {
        post == pre && eff == Seq::<Effect>::empty()
    } else if pre.player.queue_index == 0 {
        if pre.player.repeat == RepeatMode::Queue {
            let i = q.len() - 1;
            plays(at_index(pre, i), post, q[i], eff)
        } else if pre.player.status == PlaybackStatus::Paused {
            resumes(pre, post, now, eff)
        } else {
            post == pre && eff == Seq::<Effect>::empty()
        }
    } else {
        let i = pre.player.queue_index - 1;
        plays(at_index(pre, i), post, q[i], eff)
    }
}



impl Daemon {
    /// Ask to play `track`; the queue is already set.
    pub(crate) fn start_play_track(&mut self, track: TrackData) -> (eff: Vec<Effect>)
        requires
            old(self).wf(),
        ensures
            final(self).wf(),
            plays(*old(self), *final(self), track, eff@),
    {
        reveal(plays);
        let mut eff: Vec<Effect> = Vec::new();
        if self.is_offline {
            self.status_msg = Some(StatusMsg::NoInternet);
            return eff;
        }
        let master_key = match self.master_key {
            Some(k) => k,
            None => {
                self.status_msg = Some(StatusMsg::PlayerNotReady);
                return eff;
            }
        };
        // A new generation makes any fetch still in flight stale.
        self.track_generation = self.track_generation.wrapping_add(1);
        let generation = self.track_generation;
        self.player.start_loading(track.clone());
        self.status_msg = Some(StatusMsg::Loading);
        eff.push(Effect::FetchTrack { track, generation, quality: self.quality, master_key });
        eff
    }

    /// Ask to play an offline track; the queue is already set.
    pub(crate) fn start_play_offline_track(&mut self, track: TrackData) -> (eff: Vec<Effect>)
        requires
            old(self).wf(),
        ensures
            final(self).wf(),
            plays_offline(*old(self), *final(self), track, eff@),
    {
        reveal(plays_offline);
        let mut eff: Vec<Effect> = Vec::new();
        self.track_generation = self.track_generation.wrapping_add(1);
        let generation = self.track_generation;
        self.player.start_loading(track.clone());
        self.status_msg = Some(StatusMsg::Loading);
        eff.push(Effect::LoadOfflineTrack { track, generation });
        eff
    }

    /// Resume a paused track, restarting the position clock.
    pub(crate) fn resume_playback(&mut self, now: u64) -> (eff: Vec<Effect>)
        requires
            old(self).wf(),
        ensures
            final(self).wf(),
            resumes(*old(self), *final(self), now, eff@),
    {
        reveal(resumes);
        let mut eff: Vec<Effect> = Vec::new();
        if self.has_engine {
            self.player.status = PlaybackStatus::Playing;
            self.playback_started_at = Some(now);
            eff.push(Effect::EngineResume);
        }
        eff
    }

    /// Move the queue position to `i` and play the track there.
    pub(crate) fn play_at(&mut self, i: usize) -> (eff: Vec<Effect>)
        requires
            old(self).wf(),
            i < old(self).player.queue@.len(),
        ensures
            final(self).wf(),
            plays(at_index(*old(self), i as int), *final(self), old(self).player.queue@[i as int], eff@),
    {
        self.player.queue_index = i;
        assert(*self == at_index(*old(self), i as int));
        let track = self.player.queue[i].clone();
        self.start_play_track(track)
    }

    /// Skip to the next track of the queue. `random` picks the track when
    /// shuffle is on.
    pub fn play_next(&mut self, now: u64, random: u64) -> (eff: Vec<Effect>)
        requires
            old(self).wf(),
        ensures
            final(self).wf(),
            advances(*old(self), *final(self), now, random, eff@),
    {
        let len = self.player.queue.len();
        if len == 0 {
            return Vec::new();
        }
        if self.player.shuffle {
            let i = (random % (len as u64)) as usize;
            return self.play_at(i);
        }
        let next = self.player.queue_index + 1;
        if next < len {
            return self.play_at(next);
        }
        if self.player.repeat == RepeatMode::Queue {
            return self.play_at(0);
        }
        // End of the queue without repeat: a paused track resumes.
        if self.player.status == PlaybackStatus::Paused {
            return self.resume_playback(now);
        }
        Vec::new()
    }

    /// Go back to the previous track of the queue.
    pub fn play_prev(&mut self, now: u64) -> (eff: Vec<Effect>)
        requires
            old(self).wf(),
        ensures
            final(self).wf(),
            goes_back(*old(self), *final(self), now, eff@),
    {
        let len = self.player.queue.len();
        if len == 0 {
            return Vec::new();
        }
        if self.player.queue_index > 0 {
            let i = self.player.queue_index - 1;
            return self.play_at(i);
        }
        if self.player.repeat == RepeatMode::Queue {
            return self.play_at(len - 1);
        }
        // Already at the start: a paused track resumes.
        if self.player.status == PlaybackStatus::Paused {
            return self.resume_playback(now);
        }
        Vec::new()
    }

    /// Replace the queue, position it at `i` and play `track`.
    pub(crate) fn play_new_queue(&mut self, queue: Vec<TrackData>, i: usize, track: TrackData) -> (eff: Vec<Effect>)
        requires
            old(self).wf(),
            i < queue@.len(),
        ensures
            final(self).wf(),
            final(self).player.queue@ == queue@,
            plays(with_queue(*old(self), *final(self), i as int), *final(self), track, eff@),
    {
        self.player.queue = queue;
        self.player.queue_index = i;
        let ghost mid = *self;
        let eff = self.start_play_track(track);
        proof {
            reveal(plays);
            assert(mid == with_queue(*old(self), *self, i as int));
        }
        eff
    }

    /// Replace the queue and play its offline track `i`.
    pub(crate) fn play_new_offline_queue(&mut self, queue: Vec<TrackData>, i: usize) -> (eff: Vec<Effect>)
        requires
            old(self).wf(),
            i < queue@.len(),
        ensures
            final(self).wf(),
            final(self).player.queue@ == queue@,
            plays_offline(with_queue(*old(self), *final(self), i as int), *final(self), queue@[i as int], eff@),
    {
        let track = queue[i].clone();
        self.player.queue = queue;
        self.player.queue_index = i;
        let ghost mid = *self;
        let eff = self.start_play_offline_track(track);
        proof {
            reveal(plays_offline);
            assert(mid == with_queue(*old(self), *self, i as int));
        }
        eff
    }
}

} // verus!
