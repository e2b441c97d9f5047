//! Data model of the Deezer API and the display rows built from it.

use vstd::prelude::*;
use crate::text::{push_all, push_dec, push_clock, chars_of, parse_u64, parse_u64_spec, dec, clock};

verus! {

/// Errors of the Deezer client.
#[derive(Debug, PartialEq, Eq)]
pub enum DeezerError {
    Http(String),
    Api(String),
    Auth(String),
    Decrypt(String),
    Playback(String),
    QualityUnavailable,
    TrackUnavailable(String),
    TrackAlreadyInPlaylist,
}

/// Human-readable text of an error, as the error's `Display` shows it.
pub open spec fn error_message(e: DeezerError) -> Seq<char> {
    match e {
        DeezerError::Http(m) => "HTTP error: "@ + m@,
        DeezerError::Api(m) => "API error: "@ + m@,
        DeezerError::Auth(m) => "Authentication failed: "@ + m@,
        DeezerError::Decrypt(m) => "Decryption error: "@ + m@,
        DeezerError::Playback(m) => "Playback error: "@ + m@,
        DeezerError::QualityUnavailable => "No track available in requested quality"@,
        DeezerError::TrackUnavailable(m) => "Track not available: "@ + m@,
        DeezerError::TrackAlreadyInPlaylist => "Track is already in this playlist"@,
    }
}

impl DeezerError {
    /// The text that `Display` prints for this error.
    pub fn message(&self) -> (s: String)
        ensures
            s@ == error_message(*self),
    {
        let mut s = String::new();
        match self {
            DeezerError::Http(m) => { push_all(&mut s, "HTTP error: "); push_all(&mut s, m.as_str()); }
            DeezerError::Api(m) => { push_all(&mut s, "API error: "); push_all(&mut s, m.as_str()); }
            DeezerError::Auth(m) => { push_all(&mut s, "Authentication failed: "); push_all(&mut s, m.as_str()); }
            DeezerError::Decrypt(m) => { push_all(&mut s, "Decryption error: "); push_all(&mut s, m.as_str()); }
            DeezerError::Playback(m) => { push_all(&mut s, "Playback error: "); push_all(&mut s, m.as_str()); }
            DeezerError::QualityUnavailable => { push_all(&mut s, "No track available in requested quality"); }
            DeezerError::TrackUnavailable(m) => { push_all(&mut s, "Track not available: "); push_all(&mut s, m.as_str()); }
            DeezerError::TrackAlreadyInPlaylist => { push_all(&mut s, "Track is already in this playlist"); }
        }
        s
    }
}

/// Streaming quality.
#[derive(Debug, Clone, Copy, PartialEq, Eq, Structural)]
pub enum AudioQuality {
    Mp3_64,
    Mp3_128,
    Mp3_320,
    Flac,
}

impl Default for AudioQuality {
    fn default() -> (q: Self)
        ensures
            q == AudioQuality::Mp3_128,
    {
        AudioQuality::Mp3_128
    }
}

/// Rank of a quality, lowest first.
pub open spec fn quality_rank(q: AudioQuality) -> int {
    match q {
        AudioQuality::Mp3_64 => 0,
        AudioQuality::Mp3_128 => 1,
        AudioQuality::Mp3_320 => 2,
        AudioQuality::Flac => 3,
    }
}

pub open spec fn api_format(q: AudioQuality) -> Seq<char> {
    match q {
        AudioQuality::Mp3_64 => "MP3_64"@,
        AudioQuality::Mp3_128 => "MP3_128"@,
        AudioQuality::Mp3_320 => "MP3_320"@,
        AudioQuality::Flac => "FLAC"@,
    }
}

/// The next lower quality, if any.
pub open spec fn lower_quality(q: AudioQuality) -> Option<AudioQuality> {
    match q {
        AudioQuality::Flac => Some(AudioQuality::Mp3_320),
        AudioQuality::Mp3_320 => Some(AudioQuality::Mp3_128),
        AudioQuality::Mp3_128 => Some(AudioQuality::Mp3_64),
        AudioQuality::Mp3_64 => None,
    }
}

proof fn lemma_quality_rank_injective(a: AudioQuality, b: AudioQuality)
    ensures
        quality_rank(a) == quality_rank(b) ==> a == b,
{
}

/// Qualities to try for a requested one: itself and every lower one, best
/// first, then the higher ones, nearest first.
pub open spec fn fallback_order(q: AudioQuality) -> Seq<AudioQuality> {
    match q {
        AudioQuality::Mp3_64 => seq![AudioQuality::Mp3_64, AudioQuality::Mp3_128, AudioQuality::Mp3_320, AudioQuality::Flac],
        AudioQuality::Mp3_128 => seq![AudioQuality::Mp3_128, AudioQuality::Mp3_64, AudioQuality::Mp3_320, AudioQuality::Flac],
        AudioQuality::Mp3_320 => seq![AudioQuality::Mp3_320, AudioQuality::Mp3_128, AudioQuality::Mp3_64, AudioQuality::Flac],
        AudioQuality::Flac => seq![AudioQuality::Flac, AudioQuality::Mp3_320, AudioQuality::Mp3_128, AudioQuality::Mp3_64],
    }
}

impl AudioQuality {
    pub fn as_api_format(&self) -> (s: &'static str)
        ensures
            s@ == api_format(*self),
    {
        match self {
            AudioQuality::Mp3_64 => "MP3_64",
            AudioQuality::Mp3_128 => "MP3_128",
            AudioQuality::Mp3_320 => "MP3_320",
            AudioQuality::Flac => "FLAC",
        }
    }

    pub fn fallback(&self) -> (r: Option<AudioQuality>)
        ensures
            r == lower_quality(*self),
            r matches Some(l) ==> quality_rank(l) == quality_rank(*self) - 1,
            r is None <==> *self == AudioQuality::Mp3_64,
    {
        match self {
            AudioQuality::Flac => Some(AudioQuality::Mp3_320),
            AudioQuality::Mp3_320 => Some(AudioQuality::Mp3_128),
            AudioQuality::Mp3_128 => Some(AudioQuality::Mp3_64),
            AudioQuality::Mp3_64 => None,
        }
    }

    /// All qualities to try, starting from `self`, going down, then up.
    /// Example for `Mp3_128`: `[Mp3_128, Mp3_64, Mp3_320, Flac]`.
    pub fn all_fallbacks(&self) -> (r: Vec<AudioQuality>)
        ensures
            r@ == fallback_order(*self),
            r@.len() == 4,
            r@[0] == *self,
            forall|i: int, j: int| 0 <= i < j < 4 ==> r@[i] != r@[j],
    {
        let mut result: Vec<AudioQuality> = Vec::new();
        // First: self and below (preferred direction)
        let mut q = Some(*self);
        let mut steps: usize = 0;
        while q.is_some()
            invariant
                steps <= 4,
                q matches Some(x) ==> quality_rank(x) == quality_rank(*self) - steps,
                q is None ==> steps == quality_rank(*self) + 1,
                result@.len() == steps,
                forall|i: int| 0 <= i < steps ==> quality_rank(#[trigger] result@[i]) == quality_rank(*self) - i,
            decreases 4 - steps,
        {
            let quality = q.unwrap();
            result.push(quality);
            q = quality.fallback();
            steps += 1;
        }
        // Then: above self, nearest first (try higher if lower fails)
        let all_asc = [AudioQuality::Mp3_64, AudioQuality::Mp3_128, AudioQuality::Mp3_320, AudioQuality::Flac];
        let mut passed = false;
        for k in 0..4usize
            invariant
                all_asc@ == seq![AudioQuality::Mp3_64, AudioQuality::Mp3_128, AudioQuality::Mp3_320, AudioQuality::Flac],
                passed <==> k > quality_rank(*self),
                result@.len() == (if k > quality_rank(*self) { k as int } else { quality_rank(*self) + 1 }),
                forall|i: int| 0 <= i <= quality_rank(*self) ==> quality_rank(#[trigger] result@[i]) == quality_rank(*self) - i,
                forall|i: int| quality_rank(*self) < i < result@.len() ==> quality_rank(#[trigger] result@[i]) == i,
        {
            let quality = all_asc[k];
            assert(quality_rank(quality) == k);
            if passed {
                result.push(quality);
            }
            if quality == *self {
                passed = true;
            } else {
                proof {
                    if k == quality_rank(*self) {
                        lemma_quality_rank_injective(quality, *self);
                    }
                }
            }
        }
        proof {
            let r = result@;
            assert(r.len() == 4);
            assert forall|i: int| 0 <= i < 4 implies r[i] == fallback_order(*self)[i] by {
                lemma_quality_rank_injective(r[i], fallback_order(*self)[i]);
            }
            assert(r =~= fallback_order(*self));
        }
        result
    }
}

/// Fallback track of a track that is not streamable itself.
#[derive(Debug)]
pub struct TrackFallback {
    pub track_id: String,
}

/// A track as the gateway API describes it.
#[derive(Debug)]
pub struct TrackData {
    pub track_id: String,
    pub title: String,
    pub artist: String,
    pub artist_id: Option<String>,
    pub album: String,
    pub duration: String,
    pub album_picture: String,
    pub album_id: Option<String>,
    pub track_token: Option<String>,
    pub md5_origin: String,
    pub fallback: Option<TrackFallback>,
}

pub fn clone_opt_string(o: &Option<String>) -> (r: Option<String>)
    ensures
        r == *o,
{
    match o {
        Some(s) => Some(s.clone()),
        None => None,
    }
}

impl Clone for TrackFallback {
    fn clone(&self) -> (r: Self)
        ensures
            r == *self,
    {
        TrackFallback { track_id: self.track_id.clone() }
    }
}

impl Clone for TrackData {
    fn clone(&self) -> (r: Self)
        ensures
            r == *self,
    {
        TrackData {
            track_id: self.track_id.clone(),
            title: self.title.clone(),
            artist: self.artist.clone(),
            artist_id: clone_opt_string(&self.artist_id),
            album: self.album.clone(),
            duration: self.duration.clone(),
            album_picture: self.album_picture.clone(),
            album_id: clone_opt_string(&self.album_id),
            track_token: clone_opt_string(&self.track_token),
            md5_origin: self.md5_origin.clone(),
            fallback: match &self.fallback {
                Some(f) => Some(f.clone()),
                None => None,
            },
        }
    }
}

/// Track length in seconds: `DURATION` as a number, 0 when it is not one.
pub open spec fn track_duration(t: TrackData) -> u64 {
    match parse_u64_spec(t.duration@) {
        Some(n) => n,
        None => 0,
    }
}

/// The track carries a non-empty `TRACK_TOKEN`.
pub open spec fn has_token(t: TrackData) -> bool {
    t.track_token matches Some(tok) && tok@.len() > 0
}

/// User-uploaded tracks have a negative `SNG_ID`.
pub open spec fn user_uploaded(t: TrackData) -> bool {
    t.track_id@.len() > 0 && t.track_id@[0] == '-'
}

impl TrackData {
    pub fn duration_secs(&self) -> (n: u64)
        ensures
            n == track_duration(*self),
    {
        match parse_u64(self.duration.as_str()) {
            Some(n) => n,
            None => 0,
        }
    }

    pub fn has_track_token(&self) -> (b: bool)
        ensures
            b == has_token(*self),
    {
        match &self.track_token {
            Some(t) => t.as_str().unicode_len() > 0,
            None => false,
        }
    }

    /// Whether the track is one the user uploaded (streamed as `MP3_MISC`).
    pub fn is_user_uploaded(&self) -> (b: bool)
        ensures
            b == user_uploaded(*self),
    {
        let v = chars_of(self.track_id.as_str());
        v.len() > 0 && v[0] == '-'
    }
}

/// Account data returned by `deezer.getUserData`.
#[derive(Debug)]
pub struct UserData {
    pub user: UserInfo,
    pub api_token: String,
    pub offer: Option<UserOffer>,
}

#[derive(Debug)]
pub struct UserInfo {
    pub user_id: u64,
    pub user_name: String,
    pub options: UserOptions,
}

#[derive(Debug)]
pub struct UserOptions {
    pub license_token: String,
    pub web_streaming: bool,
    pub web_hq: bool,
    pub web_lossless: bool,
    pub mobile_offline: bool,
    pub license_country: String,
    pub expiration_timestamp: u64,
}

#[derive(Debug)]
pub struct UserOffer {
    pub offer_name: String,
}

#[derive(Debug)]
pub struct MediaUrl {
    pub sources: Vec<MediaSource>,
}

#[derive(Debug)]
pub struct MediaSource {
    pub url: String,
    pub provider: String,
}

/// A page of track search results.
#[derive(Debug)]
pub struct SearchResults {
    pub data: Vec<TrackData>,
    pub total: u64,
}

#[derive(Debug)]
pub struct ArtistData {
    pub artist_id: String,
    pub name: String,
    pub nb_fan: u64,
}

#[derive(Debug)]
pub struct AlbumData {
    pub album_id: String,
    pub title: String,
    pub artist: String,
    pub nb_tracks: u64,
    pub release_date: String,
    pub nb_fan: u64,
}

#[derive(Debug)]
pub struct PlaylistData {
    pub playlist_id: String,
    pub title: String,
    pub nb_songs: u64,
    pub author: String,
    /// True if the playlist is writable by users other than its owner.
    pub collaborative: bool,
}

impl Clone for PlaylistData {
    fn clone(&self) -> (r: Self)
        ensures
            r == *self,
    {
        PlaylistData {
            playlist_id: self.playlist_id.clone(),
            title: self.title.clone(),
            nb_songs: self.nb_songs,
            author: self.author.clone(),
            collaborative: self.collaborative,
        }
    }
}

#[derive(Debug)]
pub struct PodcastData {
    pub show_id: String,
    pub name: String,
    pub description: String,
}

#[derive(Debug)]
pub struct EpisodeData {
    pub episode_id: String,
    pub title: String,
    pub show_name: String,
    pub duration: String,
}

#[derive(Debug)]
pub struct ProfileData {
    pub user_id: u64,
    pub name: String,
}

/// A radio station from the public API.
#[derive(Debug)]
pub struct RadioData {
    pub id: u64,
    pub title: String,
    pub description: String,
}

/// Full album detail.
#[derive(Debug)]
pub struct AlbumDetail {
    pub album_id: String,
    pub title: String,
    pub artist: String,
    pub nb_tracks: u64,
    pub release_date: String,
    pub cover_url: String,
    pub label: String,
    pub tracks: Vec<TrackData>,
}

pub fn clone_tracks(v: &Vec<TrackData>) -> (r: Vec<TrackData>)
    ensures
        r@ == v@,
{
    let mut r: Vec<TrackData> = Vec::new();
    for i in 0..v.len()
        invariant
            r@ == v@.take(i as int),
    {
        r.push(v[i].clone());
        assert(v@.take(i + 1) == v@.take(i as int).push(v@[i as int]));
    }
    assert(v@.take(v@.len() as int) == v@);
    r
}

impl Clone for AlbumDetail {
    fn clone(&self) -> (r: Self)
        ensures
            r.album_id == self.album_id,
            r.title == self.title,
            r.artist == self.artist,
            r.nb_tracks == self.nb_tracks,
            r.release_date == self.release_date,
            r.cover_url == self.cover_url,
            r.label == self.label,
            r.tracks@ == self.tracks@,
    {
        AlbumDetail {
            album_id: self.album_id.clone(),
            title: self.title.clone(),
            artist: self.artist.clone(),
            nb_tracks: self.nb_tracks,
            release_date: self.release_date.clone(),
            cover_url: self.cover_url.clone(),
            label: self.label.clone(),
            tracks: clone_tracks(&self.tracks),
        }
    }
}

/// An album entry on an artist page.
#[derive(Debug)]
pub struct ArtistAlbumEntry {
    pub album_id: String,
    pub title: String,
    pub release_date: String,
    pub fans: u64,
    pub record_type: String,
    pub cover_url: String,
}

/// A similar artist on an artist page.
#[derive(Debug)]
pub struct SimilarArtistEntry {
    pub artist_id: String,
    pub name: String,
    pub nb_fan: u64,
}

/// Sub-tab of the artist page.
#[derive(Debug, Clone, Copy, PartialEq, Eq, Structural)]
pub enum ArtistSubTab {
    TopTracks,
    Albums,
    Lives,
    Other,
    Similar,
}

impl Default for ArtistSubTab {
    fn default() -> (t: Self)
        ensures
            t == ArtistSubTab::TopTracks,
    {
        ArtistSubTab::TopTracks
    }
}

/// Position of a sub-tab in `ArtistSubTab::ALL`.
pub open spec fn sub_tab_index(t: ArtistSubTab) -> int {
    match t {
        ArtistSubTab::TopTracks => 0,
        ArtistSubTab::Albums => 1,
        ArtistSubTab::Lives => 2,
        ArtistSubTab::Other => 3,
        ArtistSubTab::Similar => 4,
    }
}

pub open spec fn sub_tab_at(i: int) -> ArtistSubTab {
    if i == 0 { ArtistSubTab::TopTracks }
    else if i == 1 { ArtistSubTab::Albums }
    else if i == 2 { ArtistSubTab::Lives }
    else if i == 3 { ArtistSubTab::Other }
    else { ArtistSubTab::Similar }
}

impl ArtistSubTab {
    pub const ALL: [ArtistSubTab; 5] = [
        ArtistSubTab::TopTracks,
        ArtistSubTab::Albums,
        ArtistSubTab::Lives,
        ArtistSubTab::Other,
        ArtistSubTab::Similar,
    ];

    /// The following sub-tab, cycling after the last one.
    pub fn next(&self) -> (r: Self)
        ensures
            r == sub_tab_at((sub_tab_index(*self) + 1) % 5),
    {
        match self {
            ArtistSubTab::TopTracks => ArtistSubTab::Albums,
            ArtistSubTab::Albums => ArtistSubTab::Lives,
            ArtistSubTab::Lives => ArtistSubTab::Other,
            ArtistSubTab::Other => ArtistSubTab::Similar,
            ArtistSubTab::Similar => ArtistSubTab::TopTracks,
        }
    }

    /// The preceding sub-tab, cycling before the first one.
    pub fn prev(&self) -> (r: Self)
        ensures
            r == sub_tab_at((sub_tab_index(*self) + 4) % 5),
    {
        match self {
            ArtistSubTab::TopTracks => ArtistSubTab::Similar,
            ArtistSubTab::Albums => ArtistSubTab::TopTracks,
            ArtistSubTab::Lives => ArtistSubTab::Albums,
            ArtistSubTab::Other => ArtistSubTab::Lives,
            ArtistSubTab::Similar => ArtistSubTab::Other,
        }
    }
}

/// Moving to the next sub-tab and back again returns to where one started.
pub proof fn lemma_sub_tab_prev_next(t: ArtistSubTab)
    ensures
        sub_tab_at((sub_tab_index(sub_tab_at((sub_tab_index(t) + 1) % 5)) + 4) % 5) == t,
        sub_tab_at((sub_tab_index(sub_tab_at((sub_tab_index(t) + 4) % 5)) + 1) % 5) == t,
{
}

/// Full artist detail.
#[derive(Debug)]
pub struct ArtistDetail {
    pub artist_id: String,
    pub name: String,
    pub nb_fan: u64,
    pub picture_url: String,
    pub top_tracks: Vec<TrackData>,
    pub albums: Vec<ArtistAlbumEntry>,
    pub similar_artists: Vec<SimilarArtistEntry>,
}

/// Unicode lower-case mapping of a string (`str::to_lowercase`).
pub uninterp spec fn lowercase(s: Seq<char>) -> Seq<char>;

/// `str::to_lowercase`: the standard library's Unicode lower-case mapping,
/// named by `lowercase`.
#[verifier::external_body]
pub(crate) fn to_lowercase(s: &str) -> (r: String)
    ensures
        r@ == lowercase(s@),
{
    s.to_lowercase()
}

/// `w` occurs in `s` as a contiguous run.
pub open spec fn contains_seq(s: Seq<char>, w: Seq<char>) -> bool {
    exists|i: int| 0 <= i && i + w.len() <= s.len() && #[trigger] s.subrange(i, i + w.len()) == w
}

/// `str::contains` with a string pattern.
pub fn contains_str(s: &[char], w: &[char]) -> (b: bool)
    ensures
        b == contains_seq(s@, w@),
{
    if w.len() > s.len() {
        return false;
    }
    let mut i: usize = 0;
    while i <= s.len() - w.len()
        invariant
            w.len() <= s.len(),
            i <= s.len() - w.len() + 1,
            forall|k: int| 0 <= k < i ==> #[trigger] s@.subrange(k, k + w@.len()) != w@,
        decreases s.len() - i,
    {
        let mut j: usize = 0;
        let mut ok = true;
        while j < w.len()
            invariant
                i + w.len() <= s.len(),
                j <= w.len(),
                ok <==> forall|m: int| 0 <= m < j ==> s@[i + m] == w@[m],
            decreases w.len() - j,
        {
            if s[i + j] != w[j] {
                ok = false;
            }
            j += 1;
        }
        if ok {
            assert(s@.subrange(i as int, i + w@.len()) =~= w@);
            return true;
        }
        assert(s@.subrange(i as int, i + w@.len()) != w@) by {
            let m = choose|m: int| 0 <= m < w.len() && s@[i + m] != w@[m];
            assert(s@.subrange(i as int, i + w@.len())[m] == s@[i + m]);
        }
        i += 1;
    }
    false
}

/// Live albums are told apart by title keywords.
pub open spec fn album_is_live(a: ArtistAlbumEntry) -> bool {
    contains_seq(lowercase(a.title@), "live"@)
        || contains_seq(lowercase(a.title@), "concert"@)
        || contains_seq(lowercase(a.title@), "en direct"@)
}

/// Whether an album belongs on a sub-tab of the artist page.
pub open spec fn album_on_tab(a: ArtistAlbumEntry, tab: ArtistSubTab) -> bool {
    match tab {
        ArtistSubTab::Albums => a.record_type@ == "album"@ && !album_is_live(a),
        ArtistSubTab::Lives => album_is_live(a),
        ArtistSubTab::Other => a.record_type@ != "album"@ && !album_is_live(a),
        ArtistSubTab::TopTracks | ArtistSubTab::Similar => false,
    }
}

impl ArtistAlbumEntry {
    /// Detect live albums by title keywords.
    pub fn is_live(&self) -> (b: bool)
        ensures
            b == album_is_live(*self),
    {
        let lower = to_lowercase(self.title.as_str());
        let l = chars_of(lower.as_str());
        let w1 = chars_of("live");
        let w2 = chars_of("concert");
        let w3 = chars_of("en direct");
        contains_str(l.as_slice(), w1.as_slice()) || contains_str(l.as_slice(), w2.as_slice())
            || contains_str(l.as_slice(), w3.as_slice())
    }
}

fn is_album_type(s: &str) -> (b: bool)
    ensures
        b == (s@ == "album"@),
{
    let v = chars_of(s);
    let w = chars_of("album");
    if v.len() != w.len() {
        return false;
    }
    let mut i: usize = 0;
    while i < v.len()
        invariant
            v@ == s@,
            w@ == "album"@,
            v.len() == w.len(),
            i <= v.len(),
            forall|k: int| 0 <= k < i ==> v@[k] == w@[k],
        decreases v.len() - i,
    {
        if v[i] != w[i] {
            return false;
        }
        i += 1;
    }
    assert(v@ =~= w@);
    true
}

impl ArtistDetail {
    /// Albums shown on a sub-tab, in their original order. Lives are told
    /// apart by title keywords since the API has no "live" record type.
    pub fn albums_for_tab(&self, tab: ArtistSubTab) -> (r: Vec<&ArtistAlbumEntry>)
        ensures
            r@.len() <= self.albums@.len(),
            r@.map_values(|a: &ArtistAlbumEntry| *a) == self.albums@.filter(|a: ArtistAlbumEntry| album_on_tab(a, tab)),
    {
        let mut r: Vec<&ArtistAlbumEntry> = Vec::new();
        for i in 0..self.albums.len()
            invariant
                r@.len() <= i,
                r@.map_values(|a: &ArtistAlbumEntry| *a) == self.albums@.take(i as int).filter(|a: ArtistAlbumEntry| album_on_tab(a, tab)),
        {
            let a = &self.albums[i];
            let keep = match tab {
                ArtistSubTab::Albums => is_album_type(a.record_type.as_str()) && !a.is_live(),
                ArtistSubTab::Lives => a.is_live(),
                ArtistSubTab::Other => !is_album_type(a.record_type.as_str()) && !a.is_live(),
                ArtistSubTab::TopTracks | ArtistSubTab::Similar => false,
            };
            proof {
                let pre = self.albums@.take(i as int);
                assert(self.albums@.take(i + 1) == pre.push(self.albums@[i as int]));
                pre.lemma_filter_push(self.albums@[i as int], |a: ArtistAlbumEntry| album_on_tab(a, tab));
            }
            if keep {
                r.push(a);
            }
            assert(r@.map_values(|a: &ArtistAlbumEntry| *a) =~= self.albums@.take(i + 1).filter(|a: ArtistAlbumEntry| album_on_tab(a, tab)));
        }
        assert(self.albums@.take(self.albums@.len() as int) == self.albums@);
        r
    }
}

/// Full playlist detail.
#[derive(Debug)]
pub struct PlaylistDetail {
    pub playlist_id: String,
    pub title: String,
    pub creator: String,
    pub nb_tracks: u64,
    pub tracks: Vec<TrackData>,
}

impl Clone for PlaylistDetail {
    fn clone(&self) -> (r: Self)
        ensures
            r.playlist_id == self.playlist_id,
            r.title == self.title,
            r.creator == self.creator,
            r.nb_tracks == self.nb_tracks,
            r.tracks@ == self.tracks@,
    {
        PlaylistDetail {
            playlist_id: self.playlist_id.clone(),
            title: self.title.clone(),
            creator: self.creator.clone(),
            nb_tracks: self.nb_tracks,
            tracks: clone_tracks(&self.tracks),
        }
    }
}

/// A row of a four-column table, adapted from any kind of Deezer item.
#[derive(Debug)]
pub struct DisplayItem {
    pub col1: String,
    pub col2: String,
    pub col3: String,
    pub col4: String,
    /// Original track data, if this item is playable.
    pub track: Option<TrackData>,
    /// Album ID, if this item represents or belongs to an album.
    pub album_id: Option<String>,
    /// Playlist ID, if this item represents a playlist.
    pub playlist_id: Option<String>,
    /// Artist ID, if this item represents an artist.
    pub artist_id: Option<String>,
}

impl Clone for DisplayItem {
    fn clone(&self) -> (r: Self)
        ensures
            r == *self,
    {
        DisplayItem {
            col1: self.col1.clone(),
            col2: self.col2.clone(),
            col3: self.col3.clone(),
            col4: self.col4.clone(),
            track: match &self.track {
                Some(t) => Some(t.clone()),
                None => None,
            },
            album_id: clone_opt_string(&self.album_id),
            playlist_id: clone_opt_string(&self.playlist_id),
            artist_id: clone_opt_string(&self.artist_id),
        }
    }
}

/// The table row of a track: title, artist, album, `m:ss`.
pub open spec fn track_row_ok(d: DisplayItem, t: TrackData) -> bool {
    &&& d.col1 == t.title
    &&& d.col2 == t.artist
    &&& d.col3 == t.album
    &&& d.col4@ == clock(track_duration(t) as nat)
    &&& d.track == Some(t)
    &&& d.album_id is None
    &&& d.playlist_id is None
    &&& d.artist_id is None
}

impl DisplayItem {
    pub fn from_track(track: &TrackData) -> (d: Self)
        ensures
            track_row_ok(d, *track),
    {
        let dur = track.duration_secs();
        let mut col4 = String::new();
        push_clock(&mut col4, dur);
        DisplayItem {
            col1: track.title.clone(),
            col2: track.artist.clone(),
            col3: track.album.clone(),
            col4,
            track: Some(track.clone()),
            album_id: None,
            playlist_id: None,
            artist_id: None,
        }
    }

    /// Row of an artist; `fans` is the rendered fan count (`1.2M`, `3.4K`
    /// or the plain number).
    pub fn from_artist(artist: &ArtistData, fans: &str) -> (d: Self)
        ensures
            d.col1 == artist.name,
            d.col2@ == fans@ + " fans"@,
            d.col3@ == Seq::<char>::empty(),
            d.col4@ == Seq::<char>::empty(),
            d.track is None,
            d.album_id is None,
            d.playlist_id is None,
            d.artist_id == Some(artist.artist_id),
    {
        let mut col2 = String::new();
        push_all(&mut col2, fans);
        push_all(&mut col2, " fans");
        DisplayItem {
            col1: artist.name.clone(),
            col2,
            col3: String::new(),
            col4: String::new(),
            track: None,
            album_id: None,
            playlist_id: None,
            artist_id: Some(artist.artist_id.clone()),
        }
    }

    pub fn from_album(album: &AlbumData) -> (d: Self)
        ensures
            d.col1 == album.title,
            d.col2 == album.artist,
            d.col3 == album.release_date,
            d.col4@ == dec(album.nb_tracks as nat) + " titres"@,
            d.track is None,
            d.album_id == Some(album.album_id),
            d.playlist_id is None,
            d.artist_id is None,
    {
        let mut col4 = String::new();
        push_dec(&mut col4, album.nb_tracks);
        push_all(&mut col4, " titres");
        DisplayItem {
            col1: album.title.clone(),
            col2: album.artist.clone(),
            col3: album.release_date.clone(),
            col4,
            track: None,
            album_id: Some(album.album_id.clone()),
            playlist_id: None,
            artist_id: None,
        }
    }

    pub fn from_playlist(playlist: &PlaylistData) -> (d: Self)
        ensures
            d.col1 == playlist.title,
            d.col2 == playlist.author,
            d.col3@ == dec(playlist.nb_songs as nat) + " titres"@,
            d.col4@ == Seq::<char>::empty(),
            d.track is None,
            d.album_id is None,
            d.playlist_id == Some(playlist.playlist_id),
            d.artist_id is None,
    {
        let mut col3 = String::new();
        push_dec(&mut col3, playlist.nb_songs);
        push_all(&mut col3, " titres");
        DisplayItem {
            col1: playlist.title.clone(),
            col2: playlist.author.clone(),
            col3,
            col4: String::new(),
            track: None,
            album_id: None,
            playlist_id: Some(playlist.playlist_id.clone()),
            artist_id: None,
        }
    }

    pub fn from_podcast(podcast: &PodcastData) -> (d: Self)
        ensures
            d.col1 == podcast.name,
            d.col2 == podcast.description,
            d.col3@ == Seq::<char>::empty(),
            d.col4@ == Seq::<char>::empty(),
            d.track is None,
            d.album_id is None,
            d.playlist_id is None,
            d.artist_id is None,
    {
        DisplayItem {
            col1: podcast.name.clone(),
            col2: podcast.description.clone(),
            col3: String::new(),
            col4: String::new(),
            track: None,
            album_id: None,
            playlist_id: None,
            artist_id: None,
        }
    }

    pub fn from_episode(episode: &EpisodeData) -> (d: Self)
        ensures
            d.col1 == episode.title,
            d.col2 == episode.show_name,
            d.col3@ == Seq::<char>::empty(),
            d.col4@ == clock(
                match parse_u64_spec(episode.duration@) {
                    Some(n) => n as nat,
                    None => 0nat,
                },
            ),
            d.track is None,
            d.album_id is None,
            d.playlist_id is None,
            d.artist_id is None,
    {
        let dur: u64 = match parse_u64(episode.duration.as_str()) {
            Some(n) => n,
            None => 0,
        };
        let mut col4 = String::new();
        push_clock(&mut col4, dur);
        DisplayItem {
            col1: episode.title.clone(),
            col2: episode.show_name.clone(),
            col3: String::new(),
            col4,
            track: None,
            album_id: None,
            playlist_id: None,
            artist_id: None,
        }
    }

    pub fn from_profile(profile: &ProfileData) -> (d: Self)
        ensures
            d.col1 == profile.name,
            d.col2@ == Seq::<char>::empty(),
            d.col3@ == Seq::<char>::empty(),
            d.col4@ == Seq::<char>::empty(),
            d.track is None,
            d.album_id is None,
            d.playlist_id is None,
            d.artist_id is None,
    {
        DisplayItem {
            col1: profile.name.clone(),
            col2: String::new(),
            col3: String::new(),
            col4: String::new(),
            track: None,
            album_id: None,
            playlist_id: None,
            artist_id: None,
        }
    }
}

/// Rows of a list of tracks, one per track in order.
pub fn track_rows(tracks: &Vec<TrackData>) -> (r: Vec<DisplayItem>)
    ensures
        r@.len() == tracks@.len(),
        forall|i: int| 0 <= i < tracks@.len() ==> track_row_ok(#[trigger] r@[i], tracks@[i]),
{
    let mut r: Vec<DisplayItem> = Vec::new();
    for i in 0..tracks.len()
        invariant
            r@.len() == i,
            forall|k: int| 0 <= k < i ==> track_row_ok(#[trigger] r@[k], tracks@[k]),
    {
        r.push(DisplayItem::from_track(&tracks[i]));
    }
    r
}

/// Two album details hold the same data.
pub open spec fn same_album(a: AlbumDetail, b: AlbumDetail) -> bool {
    &&& a.album_id == b.album_id
    &&& a.title == b.title
    &&& a.artist == b.artist
    &&& a.nb_tracks == b.nb_tracks
    &&& a.release_date == b.release_date
    &&& a.cover_url == b.cover_url
    &&& a.label == b.label
    &&& a.tracks@ == b.tracks@
}

/// Two playlist details hold the same data.
pub open spec fn same_playlist_detail(a: PlaylistDetail, b: PlaylistDetail) -> bool {
    &&& a.playlist_id == b.playlist_id
    &&& a.title == b.title
    &&& a.creator == b.creator
    &&& a.nb_tracks == b.nb_tracks
    &&& a.tracks@ == b.tracks@
}

pub fn clone_albums(v: &Vec<AlbumDetail>) -> (r: Vec<AlbumDetail>)
    ensures
        r@.len() == v@.len(),
        forall|i: int| 0 <= i < v@.len() ==> same_album(#[trigger] r@[i], v@[i]),
{
    let mut r: Vec<AlbumDetail> = Vec::new();
    for i in 0..v.len()
        invariant
            r@.len() == i,
            forall|k: int| 0 <= k < i ==> same_album(#[trigger] r@[k], v@[k]),
    {
        r.push(v[i].clone());
    }
    r
}

pub fn clone_opt_album(v: &Option<AlbumDetail>) -> (r: Option<AlbumDetail>)
    ensures
        r is Some == v is Some,
        r is Some ==> same_album(r->0, v->0),
{
    match v {
        Some(a) => Some(a.clone()),
        None => None,
    }
}

pub fn clone_opt_playlist_detail(v: &Option<PlaylistDetail>) -> (r: Option<PlaylistDetail>)
    ensures
        r is Some == v is Some,
        r is Some ==> same_playlist_detail(r->0, v->0),
{
    match v {
        Some(a) => Some(a.clone()),
        None => None,
    }
}

pub fn clone_playlists(v: &Vec<PlaylistData>) -> (r: Vec<PlaylistData>)
    ensures
        r@ == v@,
{
    let mut r: Vec<PlaylistData> = Vec::new();
    for i in 0..v.len()
        invariant
            r@ == v@.take(i as int),
    {
        r.push(v[i].clone());
        assert(v@.take(i + 1) == v@.take(i as int).push(v@[i as int]));
    }
    assert(v@.take(v@.len() as int) == v@);
    r
}

pub fn clone_display_items(v: &Vec<DisplayItem>) -> (r: Vec<DisplayItem>)
    ensures
        r@ == v@,
{
    let mut r: Vec<DisplayItem> = Vec::new();
    for i in 0..v.len()
        invariant
            r@ == v@.take(i as int),
    {
        r.push(v[i].clone());
        assert(v@.take(i + 1) == v@.take(i as int).push(v@[i as int]));
    }
    assert(v@.take(v@.len() as int) == v@);
    r
}

} // verus!
