//! Index of the tracks and albums kept for offline playback.

use vstd::prelude::*;
use crate::models::{AudioQuality, TrackData, AlbumDetail, clone_tracks};

verus! {

/// Metadata of one offline track.
#[derive(Debug)]
pub struct OfflineTrack {
    pub track: TrackData,
    pub quality: AudioQuality,
}

impl Clone for OfflineTrack {
    fn clone(&self) -> (r: Self)
        ensures
            r == *self,
    {
        OfflineTrack { track: self.track.clone(), quality: self.quality }
    }
}

/// Persistent index of all offline content.
#[derive(Debug)]
pub struct OfflineIndex {
    pub tracks: Vec<OfflineTrack>,
    pub albums: Vec<AlbumDetail>,
}

/// Some offline track has this id.
pub open spec fn has_track_id(tracks: Seq<OfflineTrack>, id: Seq<char>) -> bool {
    exists|i: int| 0 <= i < tracks.len() && (#[trigger] tracks[i]).track.track_id@ == id
}

/// Some album has this id.
pub open spec fn has_album_id(albums: Seq<AlbumDetail>, id: Seq<char>) -> bool {
    exists|i: int| 0 <= i < albums.len() && (#[trigger] albums[i]).album_id@ == id
}

/// Some track of the list has this id.
pub open spec fn tracks_have_id(tracks: Seq<TrackData>, id: Seq<char>) -> bool {
    exists|i: int| 0 <= i < tracks.len() && (#[trigger] tracks[i]).track_id@ == id
}

/// Index of the first album with this id.
pub open spec fn first_album(albums: Seq<AlbumDetail>, id: Seq<char>) -> int
    recommends
        has_album_id(albums, id),
{
    choose|i: int| 0 <= i < albums.len() && albums[i].album_id@ == id
        && forall|j: int| 0 <= j < i ==> (#[trigger] albums[j]).album_id@ != id
}

/// No two offline tracks share an id.
pub open spec fn unique_track_ids(tracks: Seq<OfflineTrack>) -> bool {
    forall|i: int, j: int| 0 <= i < j < tracks.len()
        ==> (#[trigger] tracks[i]).track.track_id@ != (#[trigger] tracks[j]).track.track_id@
}

/// No two albums share an id.
pub open spec fn unique_album_ids(albums: Seq<AlbumDetail>) -> bool {
    forall|i: int, j: int| 0 <= i < j < albums.len()
        ==> (#[trigger] albums[i]).album_id@ != (#[trigger] albums[j]).album_id@
}

pub fn str_eq(a: &str, b: &str) -> (r: bool)
    ensures
        r == (a@ == b@),
{
    let x = crate::text::chars_of(a);
    let y = crate::text::chars_of(b);
    if x.len() != y.len() {
        return false;
    }
    let mut i: usize = 0;
    while i < x.len()
        invariant
            x@ == a@,
            y@ == b@,
            x.len() == y.len(),
            i <= x.len(),
            forall|k: int| 0 <= k < i ==> x@[k] == y@[k],
        decreases x.len() - i,
    {
        if x[i] != y[i] {
            return false;
        }
        i += 1;
    }
    assert(x@ =~= y@);
    true
}

/// Whether one of `tracks` has the id `id`.
pub fn list_has_track(tracks: &Vec<TrackData>, id: &str) -> (b: bool)
    ensures
        b == tracks_have_id(tracks@, id@),
{
    for i in 0..tracks.len()
        invariant
            forall|k: int| 0 <= k < i ==> (#[trigger] tracks@[k]).track_id@ != id@,
    {
        if str_eq(tracks[i].track_id.as_str(), id) {
            return true;
        }
    }
    false
}

/// Some album lists a track with this id.
pub open spec fn albums_have_track(albums: Seq<AlbumDetail>, id: Seq<char>) -> bool {
    exists|i: int| 0 <= i < albums.len() && tracks_have_id((#[trigger] albums[i]).tracks@, id)
}

/// Whether one of `albums` lists a track with the id `id`.
pub fn albums_contain_track(albums: &Vec<AlbumDetail>, id: &str) -> (b: bool)
    ensures
        b == albums_have_track(albums@, id@),
{
    for i in 0..albums.len()
        invariant
            forall|k: int| 0 <= k < i ==> !tracks_have_id((#[trigger] albums@[k]).tracks@, id@),
    {
        if list_has_track(&albums[i].tracks, id) {
            return true;
        }
    }
    false
}

/// The tracks of the index after adding `track` at `quality`: unchanged when
/// its id is already there, else with the track at the end.
pub open spec fn with_track(tracks: Seq<OfflineTrack>, track: TrackData, quality: AudioQuality) -> Seq<OfflineTrack> {
    if has_track_id(tracks, track.track_id@) { tracks } else { tracks.push(OfflineTrack { track, quality }) }
}

/// Offline tracks kept after removing the ids listed in `gone`.
pub open spec fn without_ids(tracks: Seq<OfflineTrack>, gone: Seq<TrackData>) -> Seq<OfflineTrack> {
    tracks.filter(|t: OfflineTrack| !tracks_have_id(gone, t.track.track_id@))
}

impl OfflineIndex {
    /// An empty index.
    pub fn new() -> (r: Self)
        ensures
            r.tracks@.len() == 0,
            r.albums@.len() == 0,
    {
        OfflineIndex { tracks: Vec::new(), albums: Vec::new() }
    }

    /// Whether a track is in the offline index.
    pub fn has_track(&self, track_id: &str) -> (b: bool)
        ensures
            b == has_track_id(self.tracks@, track_id@),
    {
        for i in 0..self.tracks.len()
            invariant
                forall|k: int| 0 <= k < i ==> (#[trigger] self.tracks@[k]).track.track_id@ != track_id@,
        {
            if str_eq(self.tracks[i].track.track_id.as_str(), track_id) {
                return true;
            }
        }
        false
    }

    /// Add a track to the index (no-op if one with its id is present).
    pub fn add_track(&mut self, track: TrackData, quality: AudioQuality)
        ensures
            *final(self) == (OfflineIndex { tracks: final(self).tracks, ..*old(self) }),
            final(self).tracks@ == with_track(old(self).tracks@, track, quality),
    {
        if !self.has_track(track.track_id.as_str()) {
            self.tracks.push(OfflineTrack { track, quality });
        }
    }

    /// Remove every track with this id from the index. (The audio file is
    /// deleted by the caller.)
    pub fn remove_track(&mut self, track_id: &str)
        ensures
            *final(self) == (OfflineIndex { tracks: final(self).tracks, ..*old(self) }),
            final(self).tracks@ == old(self).tracks@.filter(|t: OfflineTrack| t.track.track_id@ != track_id@),
    {
        let mut kept: Vec<OfflineTrack> = Vec::new();
        let ghost pred = |t: OfflineTrack| t.track.track_id@ != track_id@;
        for i in 0..self.tracks.len()
            invariant
                pred == (|t: OfflineTrack| t.track.track_id@ != track_id@),
                kept@ == self.tracks@.take(i as int).filter(pred),
        {
            proof {
                let pre = self.tracks@.take(i as int);
                assert(self.tracks@.take(i + 1) == pre.push(self.tracks@[i as int]));
                pre.lemma_filter_push(self.tracks@[i as int], pred);
            }
            if !str_eq(self.tracks[i].track.track_id.as_str(), track_id) {
                kept.push(self.tracks[i].clone());
            }
        }
        assert(self.tracks@.take(self.tracks@.len() as int) == self.tracks@);
        self.tracks = kept;
    }

    /// Whether an album is in the offline index.
    pub fn has_album(&self, album_id: &str) -> (b: bool)
        ensures
            b == has_album_id(self.albums@, album_id@),
    {
        for i in 0..self.albums.len()
            invariant
                forall|k: int| 0 <= k < i ==> (#[trigger] self.albums@[k]).album_id@ != album_id@,
        {
            if str_eq(self.albums[i].album_id.as_str(), album_id) {
                return true;
            }
        }
        false
    }

    /// Add an album to the index (no-op if one with its id is present).
    pub fn add_album(&mut self, album: AlbumDetail)
        ensures
            *final(self) == (OfflineIndex { albums: final(self).albums, ..*old(self) }),
            has_album_id(old(self).albums@, album.album_id@) ==> final(self).albums@ == old(self).albums@,
            !has_album_id(old(self).albums@, album.album_id@) ==> final(self).albums@
                == old(self).albums@.push(album),
    {
        if !self.has_album(album.album_id.as_str()) {
            self.albums.push(album);
        }
    }

    /// Index of the first album with this id, if any.
    pub fn find_album(&self, album_id: &str) -> (r: Option<usize>)
        ensures
            r is None <==> !has_album_id(self.albums@, album_id@),
            r matches Some(i) ==> i == first_album(self.albums@, album_id@) && i < self.albums@.len(),
    {
        for i in 0..self.albums.len()
            invariant
                forall|k: int| 0 <= k < i ==> (#[trigger] self.albums@[k]).album_id@ != album_id@,
        {
            if str_eq(self.albums[i].album_id.as_str(), album_id) {
                proof {
                    let j = i as int;
                    assert(self.albums@[j].album_id@ == album_id@
                        && forall|k: int| 0 <= k < j ==> (#[trigger] self.albums@[k]).album_id@ != album_id@);
                    let c = first_album(self.albums@, album_id@);
                    if c < j {
                        assert(self.albums@[c].album_id@ != album_id@);
                    }
                    if c > j {
                        assert(self.albums@[j].album_id@ != album_id@);
                    }
                }
                return Some(i);
            }
        }
        None
    }

    /// Drop every offline track whose id is one of `gone`'s.
    fn remove_tracks_of(&mut self, gone: &Vec<TrackData>)
        ensures
            final(self).albums@ == old(self).albums@,
            final(self).tracks@ == without_ids(old(self).tracks@, gone@),
    {
        let mut old_tracks: Vec<OfflineTrack> = Vec::new();
        std::mem::swap(&mut old_tracks, &mut self.tracks);
        let ghost before = old_tracks@;
        let ghost pred = |t: OfflineTrack| !tracks_have_id(gone@, t.track.track_id@);
        for t in it: old_tracks.into_iter()
            invariant
                pred == (|t: OfflineTrack| !tracks_have_id(gone@, t.track.track_id@)),
                it.seq() == before,
                self.albums@ == old(self).albums@,
                self.tracks@ == before.take(it.index() as int).filter(pred),
        {
            proof {
                let i = it.index() as int;
                let pre = before.take(i);
                assert(before.take(i + 1) == pre.push(before[i]));
                pre.lemma_filter_push(before[i], pred);
            }
            if !list_has_track(gone, t.track.track_id.as_str()) {
                self.tracks.push(t);
            }
        }
        assert(before.take(before.len() as int) == before);
    }

    /// Drop every album with this id.
    fn remove_albums_with_id(&mut self, album_id: &str)
        ensures
            final(self).tracks@ == old(self).tracks@,
            final(self).albums@ == old(self).albums@.filter(|a: AlbumDetail| a.album_id@ != album_id@),
    {
        let mut old_albums: Vec<AlbumDetail> = Vec::new();
        std::mem::swap(&mut old_albums, &mut self.albums);
        let ghost before = old_albums@;
        let ghost apred = |a: AlbumDetail| a.album_id@ != album_id@;
        for a in it: old_albums.into_iter()
            invariant
                apred == (|a: AlbumDetail| a.album_id@ != album_id@),
                it.seq() == before,
                self.tracks@ == old(self).tracks@,
                self.albums@ == before.take(it.index() as int).filter(apred),
        {
            proof {
                let i = it.index() as int;
                let pre = before.take(i);
                assert(before.take(i + 1) == pre.push(before[i]));
                pre.lemma_filter_push(before[i], apred);
            }
            if !str_eq(a.album_id.as_str(), album_id) {
                self.albums.push(a);
            }
        }
        assert(before.take(before.len() as int) == before);
    }

    /// Remove an album and all its tracks from the index. (The audio files
    /// are deleted by the caller.)
    pub fn remove_album(&mut self, album_id: &str)
        ensures
            final(self).albums@ == old(self).albums@.filter(|a: AlbumDetail| a.album_id@ != album_id@),
            has_album_id(old(self).albums@, album_id@) ==> final(self).tracks@ == without_ids(
                old(self).tracks@,
                old(self).albums@[first_album(old(self).albums@, album_id@)].tracks@,
            ),
            !has_album_id(old(self).albums@, album_id@) ==> final(self).tracks@ == old(self).tracks@,
    {
        if let Some(idx) = self.find_album(album_id) {
            let gone = clone_tracks(&self.albums[idx].tracks);
            self.remove_tracks_of(&gone);
        }
        self.remove_albums_with_id(album_id);
    }

    /// The offline tracks that belong to no offline album, in index order.
    pub fn single_tracks(&self) -> (r: Vec<OfflineTrack>)
        ensures
            r@ == self.tracks@.filter(|t: OfflineTrack| !albums_have_track(self.albums@, t.track.track_id@)),
    {
        let ghost pred = |t: OfflineTrack| !albums_have_track(self.albums@, t.track.track_id@);
        let mut r: Vec<OfflineTrack> = Vec::new();
        for i in 0..self.tracks.len()
            invariant
                pred == (|t: OfflineTrack| !albums_have_track(self.albums@, t.track.track_id@)),
                r@ == self.tracks@.take(i as int).filter(pred),
        {
            proof {
                let pre = self.tracks@.take(i as int);
                assert(self.tracks@.take(i + 1) == pre.push(self.tracks@[i as int]));
                pre.lemma_filter_push(self.tracks@[i as int], pred);
            }
            if !albums_contain_track(&self.albums, self.tracks[i].track.track_id.as_str()) {
                r.push(self.tracks[i].clone());
            }
        }
        assert(self.tracks@.take(self.tracks@.len() as int) == self.tracks@);
        r
    }

    /// All offline track ids, in index order.
    pub fn track_ids(&self) -> (r: Vec<String>)
        ensures
            r@.len() == self.tracks@.len(),
            forall|i: int| 0 <= i < r@.len() ==> (#[trigger] r@[i])@ == self.tracks@[i].track.track_id@,
    {
        let mut r: Vec<String> = Vec::new();
        for i in 0..self.tracks.len()
            invariant
                r@.len() == i,
                forall|k: int| 0 <= k < i ==> (#[trigger] r@[k])@ == self.tracks@[k].track.track_id@,
        {
            r.push(self.tracks[i].track.track_id.clone());
        }
        r
    }
}

} // verus!
