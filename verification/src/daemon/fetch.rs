//! Fetching a track to play: the decisions between the network calls.
//!
//! The host performs each `FetchAction` and answers with a `FetchEvent`.
//! The track's token is made sure of, then its stream URL is asked for at
//! the requested quality. When that request fails, the track is read again
//! (its token may have expired) and the request is made once more; when that
//! fails too, the track's fallback is tried if it has one, and otherwise the
//! fetch fails with the error of the first request. The audio found is then
//! downloaded and decrypted.

use vstd::prelude::*;
use crate::models::{AudioQuality, TrackData};

verus! {

/// Where the fetch of a track stands.
#[derive(Debug)]
pub enum FetchState {
    /// Waiting for the track with a usable token.
    Token,
    /// Waiting for the stream URL of `track`, first request.
    FirstUrl { track: TrackData },
    /// Waiting for the track read again; the first request failed with `first_err`.
    Refresh { first_err: String },
    /// Waiting for the stream URL of the track read again.
    RetryUrl { track: TrackData, first_err: String },
    /// Waiting for the fallback track.
    FallbackTrack,
    /// Waiting for the stream URL of the fallback `track`.
    FallbackUrl { track: TrackData },
    /// Waiting for the audio of `track`, served at `quality`.
    Download { track: TrackData, quality: AudioQuality },
    /// The fetch is over.
    Done,
}

/// The answer of the host to the last action.
#[derive(Debug)]
pub enum FetchEvent {
    /// The track with a usable token, or the error that stopped it.
    Token(Result<TrackData, String>),
    /// A stream URL and the quality it serves, or the error.
    StreamUrl(Result<(String, AudioQuality), String>),
    /// A track read from the API, or the error.
    Track(Result<TrackData, String>),
    /// The audio was downloaded and decrypted, or the error.
    Audio(Result<(), String>),
}

/// What the host is asked to do next.
#[derive(Debug)]
pub enum FetchAction {
    /// Make sure `track` has a usable token.
    EnsureToken { track: TrackData },
    /// Ask for the stream URL of `track` at the requested quality.
    GetStreamUrl { track: TrackData },
    /// Read the track `track_id` from the API.
    GetTrack { track_id: String },
    /// Download the audio at `url` and decrypt it with the key of `track_id`.
    Download { url: String, track_id: String },
    /// The fetch succeeded: `track` plays at `quality`.
    Ready { track: TrackData, quality: AudioQuality },
    /// The fetch failed with `err`.
    Failed { err: String },
    /// Nothing: the answer did not belong to the current step.
    Wait,
}

/// The first step of a fetch of `track`.
pub open spec fn fetch_begin(track: TrackData) -> (FetchState, FetchAction) {
    (FetchState::Token, FetchAction::EnsureToken { track })
}

/// After a stream URL was found for `track`: download its audio.
pub open spec fn download_step(track: TrackData, url: String, quality: AudioQuality) -> (FetchState, FetchAction) {
    (FetchState::Download { track, quality }, FetchAction::Download { url, track_id: track.track_id })
}

/// The next state and action of a fetch in `state` on the answer `event`.
pub open spec fn fetch_next(state: FetchState, event: FetchEvent) -> (FetchState, FetchAction) {
    match (state, event) {
        (FetchState::Token, FetchEvent::Token(Ok(t))) =>
            (FetchState::FirstUrl { track: t }, FetchAction::GetStreamUrl { track: t }),
        (FetchState::Token, FetchEvent::Token(Err(e))) =>
            (FetchState::Done, FetchAction::Failed { err: e }),
        (FetchState::FirstUrl { track }, FetchEvent::StreamUrl(Ok((url, q)))) =>
            download_step(track, url, q),
        (FetchState::FirstUrl { track }, FetchEvent::StreamUrl(Err(e))) =>
            (FetchState::Refresh { first_err: e }, FetchAction::GetTrack { track_id: track.track_id }),
        (FetchState::Refresh { first_err }, FetchEvent::Track(Ok(t))) =>
            (FetchState::RetryUrl { track: t, first_err }, FetchAction::GetStreamUrl { track: t }),
        (FetchState::Refresh { .. }, FetchEvent::Track(Err(e))) =>
            (FetchState::Done, FetchAction::Failed { err: e }),
        (FetchState::RetryUrl { track, .. }, FetchEvent::StreamUrl(Ok((url, q)))) =>
            download_step(track, url, q),
        (FetchState::RetryUrl { track, first_err }, FetchEvent::StreamUrl(Err(_))) =>
            match track.fallback {
                Some(fb) => (FetchState::FallbackTrack, FetchAction::GetTrack { track_id: fb.track_id }),
                None => (FetchState::Done, FetchAction::Failed { err: first_err }),
            },
        (FetchState::FallbackTrack, FetchEvent::Track(Ok(t))) =>
            (FetchState::FallbackUrl { track: t }, FetchAction::GetStreamUrl { track: t }),
        (FetchState::FallbackTrack, FetchEvent::Track(Err(e))) =>
            (FetchState::Done, FetchAction::Failed { err: e }),
        (FetchState::FallbackUrl { track }, FetchEvent::StreamUrl(Ok((url, q)))) =>
            download_step(track, url, q),
        (FetchState::FallbackUrl { .. }, FetchEvent::StreamUrl(Err(e))) =>
            (FetchState::Done, FetchAction::Failed { err: e }),
        (FetchState::Download { track, quality }, FetchEvent::Audio(Ok(()))) =>
            (FetchState::Done, FetchAction::Ready { track, quality }),
        (FetchState::Download { .. }, FetchEvent::Audio(Err(e))) =>
            (FetchState::Done, FetchAction::Failed { err: e }),
        (s, _) => (s, FetchAction::Wait),
    }
}

/// Start fetching `track`: its token comes first.
pub fn fetch_start(track: TrackData) -> (r: (FetchState, FetchAction))
    ensures
        r == fetch_begin(track),
{
    (FetchState::Token, FetchAction::EnsureToken { track })
}

fn download_of(track: TrackData, url: String, quality: AudioQuality) -> (r: (FetchState, FetchAction))
    ensures
        r == download_step(track, url, quality),
{
    let track_id = track.track_id.clone();
    (FetchState::Download { track, quality }, FetchAction::Download { url, track_id })
}

/// One step of a fetch: the state after `event` and what to do next.
pub fn fetch_step(state: FetchState, event: FetchEvent) -> (r: (FetchState, FetchAction))
    ensures
        r == fetch_next(state, event),
{
    match (state, event) {
        (FetchState::Token, FetchEvent::Token(Ok(t))) => {
            let track = t.clone();
            (FetchState::FirstUrl { track: t }, FetchAction::GetStreamUrl { track })
        },
        (FetchState::Token, FetchEvent::Token(Err(e))) => (FetchState::Done, FetchAction::Failed { err: e }),
        (FetchState::FirstUrl { track }, FetchEvent::StreamUrl(Ok((url, q)))) => download_of(track, url, q),
        (FetchState::FirstUrl { track }, FetchEvent::StreamUrl(Err(e))) => {
            (FetchState::Refresh { first_err: e }, FetchAction::GetTrack { track_id: track.track_id })
        },
        (FetchState::Refresh { first_err }, FetchEvent::Track(Ok(t))) => {
            let track = t.clone();
            (FetchState::RetryUrl { track: t, first_err }, FetchAction::GetStreamUrl { track })
        },
        (FetchState::Refresh { .. }, FetchEvent::Track(Err(e))) => (FetchState::Done, FetchAction::Failed { err: e }),
        (FetchState::RetryUrl { track, .. }, FetchEvent::StreamUrl(Ok((url, q)))) => download_of(track, url, q),
        (FetchState::RetryUrl { track, first_err }, FetchEvent::StreamUrl(Err(_))) => match track.fallback {
            Some(fb) => (FetchState::FallbackTrack, FetchAction::GetTrack { track_id: fb.track_id }),
            None => (FetchState::Done, FetchAction::Failed { err: first_err }),
        },
        (FetchState::FallbackTrack, FetchEvent::Track(Ok(t))) => {
            let track = t.clone();
            (FetchState::FallbackUrl { track: t }, FetchAction::GetStreamUrl { track })
        },
        (FetchState::FallbackTrack, FetchEvent::Track(Err(e))) => (FetchState::Done, FetchAction::Failed { err: e }),
        (FetchState::FallbackUrl { track }, FetchEvent::StreamUrl(Ok((url, q)))) => download_of(track, url, q),
        (FetchState::FallbackUrl { .. }, FetchEvent::StreamUrl(Err(e))) => {
            (FetchState::Done, FetchAction::Failed { err: e })
        },
        (FetchState::Download { track, quality }, FetchEvent::Audio(Ok(()))) => {
            (FetchState::Done, FetchAction::Ready { track, quality })
        },
        (FetchState::Download { .. }, FetchEvent::Audio(Err(e))) => (FetchState::Done, FetchAction::Failed { err: e }),
        (s, _) => (s, FetchAction::Wait),
    }
}

} // verus!
