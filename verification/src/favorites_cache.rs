//! Cache of favorites data, so that switching between favorites sub-tabs
//! does not ask the Deezer service again.
//!
//! What invalidates what:
//! - tracks: a favorite track added or removed;
//! - artists, albums: a favorite artist or album added or removed;
//! - playlists list, and the detail of one playlist: a track added to it;
//! - recently played: never cached;
//! - following: only explicit invalidation.

use vstd::prelude::*;
use crate::models::{TrackData, DisplayItem, PlaylistDetail};
use crate::offline::str_eq;
use crate::protocol::MoodEntry;

verus! {

/// Current cache format; a file of another format is discarded.
pub const CACHE_VERSION: u32 = 2;

/// All cached favorites data.
#[derive(Debug)]
pub struct FavoritesCache {
    /// Format version of this cache.
    pub version: u32,
    pub tracks: Option<Vec<TrackData>>,
    pub artists: Option<Vec<DisplayItem>>,
    pub albums: Option<Vec<DisplayItem>>,
    pub playlists: Option<Vec<DisplayItem>>,
    pub following: Option<Vec<DisplayItem>>,
    /// Playlist details, one per playlist id.
    pub playlist_details: Vec<(String, PlaylistDetail)>,
    /// Explore moods: cached until the next login.
    pub moods: Option<Vec<MoodEntry>>,
}

/// No playlist id occurs twice among the cached details.
pub open spec fn unique_detail_ids(v: Seq<(String, PlaylistDetail)>) -> bool {
    forall|i: int, j: int| 0 <= i < j < v.len() ==> (#[trigger] v[i]).0@ != (#[trigger] v[j]).0@
}

/// The cached details as a map from playlist id.
pub open spec fn details_map(v: Seq<(String, PlaylistDetail)>) -> Map<Seq<char>, PlaylistDetail>
    decreases v.len(),
{
    if v.len() == 0 {
        Map::empty()
    } else {
        details_map(v.drop_last()).insert(v.last().0@, v.last().1)
    }
}

proof fn lemma_details_dom(v: Seq<(String, PlaylistDetail)>, k: Seq<char>)
    ensures
        details_map(v).dom().contains(k) <==> exists|i: int| 0 <= i < v.len() && (#[trigger] v[i]).0@ == k,
    decreases v.len(),
{
    if v.len() > 0 {
        lemma_details_dom(v.drop_last(), k);
        if details_map(v.drop_last()).dom().contains(k) {
            let i = choose|i: int| 0 <= i < v.drop_last().len() && (#[trigger] v.drop_last()[i]).0@ == k;
            assert(v[i] == v.drop_last()[i]);
        }
        if exists|i: int| 0 <= i < v.len() && (#[trigger] v[i]).0@ == k {
            let i = choose|i: int| 0 <= i < v.len() && (#[trigger] v[i]).0@ == k;
            if i < v.len() - 1 {
                assert(v.drop_last()[i] == v[i]);
            }
        }
    }
}

proof fn lemma_details_remove(v: Seq<(String, PlaylistDetail)>, k: int)
    requires
        unique_detail_ids(v),
        0 <= k < v.len(),
    ensures
        unique_detail_ids(v.remove(k)),
        details_map(v.remove(k)) == details_map(v).remove(v[k].0@),
    decreases v.len(),
{
    let key = v[k].0@;
    if k == v.len() - 1 {
        assert(v.remove(k) =~= v.drop_last());
        lemma_details_dom(v.drop_last(), key);
        if details_map(v.drop_last()).dom().contains(key) {
            let i = choose|i: int| 0 <= i < v.drop_last().len() && (#[trigger] v.drop_last()[i]).0@ == key;
            assert(v[i] == v.drop_last()[i]);
        }
        assert(details_map(v.drop_last()) =~= details_map(v).remove(key));
    } else {
        let d = v.drop_last();
        lemma_details_remove(d, k);
        assert(v.remove(k) =~= d.remove(k).push(v.last()));
        assert(v.remove(k).drop_last() =~= d.remove(k));
        assert(v.last().0@ != key);
        assert(details_map(v.remove(k)) =~= details_map(v).remove(key));
    }
}

proof fn lemma_details_push(v: Seq<(String, PlaylistDetail)>, e: (String, PlaylistDetail))
    requires
        unique_detail_ids(v),
        !details_map(v).dom().contains(e.0@),
    ensures
        unique_detail_ids(v.push(e)),
        details_map(v.push(e)) == details_map(v).insert(e.0@, e.1),
{
    lemma_details_dom(v, e.0@);
    assert(v.push(e).drop_last() =~= v);
    assert forall|i: int, j: int| 0 <= i < j < v.push(e).len()
        implies (#[trigger] v.push(e)[i]).0@ != (#[trigger] v.push(e)[j]).0@ by {
        if j == v.len() {
            assert(v.push(e)[i] == v[i]);
        } else {
            assert(v.push(e)[i] == v[i]);
            assert(v.push(e)[j] == v[j]);
        }
    }
}

proof fn lemma_details_get(v: Seq<(String, PlaylistDetail)>, k: int)
    requires
        unique_detail_ids(v),
        0 <= k < v.len(),
    ensures
        details_map(v).dom().contains(v[k].0@),
        details_map(v)[v[k].0@] == v[k].1,
    decreases v.len(),
{
    if k < v.len() - 1 {
        let d = v.drop_last();
        assert(d[k] == v[k]);
        lemma_details_get(d, k);
        assert(v.last().0@ != v[k].0@);
    }
}

impl FavoritesCache {
    /// The cache's invariant.
    pub open spec fn wf(&self) -> bool {
        unique_detail_ids(self.playlist_details@)
    }

    /// The cached playlist details by playlist id.
    pub open spec fn details(&self) -> Map<Seq<char>, PlaylistDetail> {
        details_map(self.playlist_details@)
    }

    /// Nothing cached, format version 0 (what a file without a version reads as).
    pub fn new() -> (c: Self)
        ensures
            c.wf(),
            c.version == 0,
            c.tracks is None && c.artists is None && c.albums is None,
            c.playlists is None && c.following is None && c.moods is None,
            c.details() == Map::<Seq<char>, PlaylistDetail>::empty(),
    {
        FavoritesCache {
            version: 0,
            tracks: None,
            artists: None,
            albums: None,
            playlists: None,
            following: None,
            playlist_details: Vec::new(),
            moods: None,
        }
    }

    /// An empty cache stamped with the current format version.
    pub fn empty() -> (c: Self)
        ensures
            c.wf(),
            c.version == CACHE_VERSION,
            c.tracks is None && c.artists is None && c.albums is None,
            c.playlists is None && c.following is None && c.moods is None,
            c.details() == Map::<Seq<char>, PlaylistDetail>::empty(),
    {
        let mut c = Self::new();
        c.version = CACHE_VERSION;
        c
    }

    /// What loading keeps of a cache read from disk (`None` when the file
    /// could not be read or parsed): the cache itself when it has the
    /// current format and consistent details, else an empty cache.
    pub fn from_loaded(loaded: Option<FavoritesCache>) -> (c: Self)
        ensures
            c.wf(),
            match loaded {
                Some(l) => if l.version == CACHE_VERSION && l.wf() { c == l } else { c.version == CACHE_VERSION
                    && c.tracks is None && c.artists is None && c.albums is None && c.playlists is None
                    && c.following is None && c.moods is None && c.details() == Map::<Seq<char>, PlaylistDetail>::empty() },
                None => c.version == CACHE_VERSION && c.tracks is None && c.artists is None
                    && c.albums is None && c.playlists is None && c.following is None && c.moods is None
                    && c.details() == Map::<Seq<char>, PlaylistDetail>::empty(),
            },
    {
        match loaded {
            Some(l) => {
                if l.version == CACHE_VERSION && Self::details_unique(&l.playlist_details) {
                    l
                } else {
                    Self::empty()
                }
            }
            None => Self::empty(),
        }
    }

    fn details_unique(v: &Vec<(String, PlaylistDetail)>) -> (b: bool)
        ensures
            b == unique_detail_ids(v@),
    {
        let n = v.len();
        for i in 0..n
            invariant
                n == v@.len(),
                forall|a: int, b: int| 0 <= a < b < v@.len() && a < i ==> (#[trigger] v@[a]).0@ != (#[trigger] v@[b]).0@,
        {
            for j in (i + 1)..n
                invariant
                    n == v@.len(),
                    i < n,
                    forall|a: int, b: int| 0 <= a < b < v@.len() && a < i ==> (#[trigger] v@[a]).0@ != (#[trigger] v@[b]).0@,
                    forall|b: int| i < b < j ==> v@[i as int].0@ != (#[trigger] v@[b]).0@,
            {
                if str_eq(v[i].0.as_str(), v[j].0.as_str()) {
                    return false;
                }
            }
        }
        true
    }

    /// The cache as it is written to disk: stamped with the current format.
    pub fn stamped(self) -> (c: Self)
        ensures
            c == (FavoritesCache { version: CACHE_VERSION, ..self }),
    {
        let mut c = self;
        c.version = CACHE_VERSION;
        c
    }

    pub fn invalidate_tracks(&mut self)
        ensures
            *final(self) == (FavoritesCache { tracks: None, ..*old(self) }),
    {
        self.tracks = None;
    }

    pub fn invalidate_artists(&mut self)
        ensures
            *final(self) == (FavoritesCache { artists: None, ..*old(self) }),
    {
        self.artists = None;
    }

    pub fn invalidate_albums(&mut self)
        ensures
            *final(self) == (FavoritesCache { albums: None, ..*old(self) }),
    {
        self.albums = None;
    }

    fn find_detail(&self, playlist_id: &str) -> (r: Option<usize>)
        requires
            self.wf(),
        ensures
            r is Some ==> r->0 < self.playlist_details@.len() && self.playlist_details@[r->0 as int].0@ == playlist_id@,
            r is None ==> !self.details().dom().contains(playlist_id@),
    {
        proof { lemma_details_dom(self.playlist_details@, playlist_id@); }
        for i in 0..self.playlist_details.len()
            invariant
                forall|k: int| 0 <= k < i ==> (#[trigger] self.playlist_details@[k]).0@ != playlist_id@,
        {
            if str_eq(self.playlist_details[i].0.as_str(), playlist_id) {
                return Some(i);
            }
        }
        None
    }

    /// The cached detail of a playlist.
    pub fn playlist_detail(&self, playlist_id: &str) -> (r: Option<&PlaylistDetail>)
        requires
            self.wf(),
        ensures
            r is Some == self.details().dom().contains(playlist_id@),
            r is Some ==> *r->0 == self.details()[playlist_id@],
    {
        match self.find_detail(playlist_id) {
            Some(i) => {
                proof { lemma_details_get(self.playlist_details@, i as int); }
                Some(&self.playlist_details[i].1)
            }
            None => None,
        }
    }

    /// Cache the detail of a playlist, replacing an older one.
    pub fn store_playlist_detail(&mut self, playlist_id: String, detail: PlaylistDetail)
        requires
            old(self).wf(),
        ensures
            final(self).wf(),
            final(self).details() == old(self).details().insert(playlist_id@, detail),
            *final(self) == (FavoritesCache { playlist_details: final(self).playlist_details, ..*old(self) }),
    {
        let ghost id = playlist_id@;
        match self.find_detail(playlist_id.as_str()) {
            Some(i) => {
                proof { lemma_details_remove(self.playlist_details@, i as int); }
                self.playlist_details.remove(i);
            }
            None => {
                assert(old(self).details().remove(id) =~= old(self).details());
            }
        }
        let ghost before = self.playlist_details@;
        assert(details_map(before) == old(self).details().remove(id));
        self.playlist_details.push((playlist_id, detail));
        proof {
            lemma_details_push(before, (playlist_id, detail));
            assert(self.details() =~= old(self).details().insert(id, detail));
        }
    }

    /// Invalidate the playlists list and, if given, one playlist's detail.
    pub fn invalidate_playlists(&mut self, playlist_id: Option<&str>)
        requires
            old(self).wf(),
        ensures
            final(self).wf(),
            final(self).playlists is None,
            final(self).details() == (match playlist_id {
                Some(id) => old(self).details().remove(id@),
                None => old(self).details(),
            }),
            *final(self) == (FavoritesCache { playlists: None, playlist_details: final(self).playlist_details, ..*old(self) }),
    {
        self.playlists = None;
        if let Some(id) = playlist_id {
            match self.find_detail(id) {
                Some(i) => {
                    proof { lemma_details_remove(self.playlist_details@, i as int); }
                    self.playlist_details.remove(i);
                }
                None => {
                    assert(old(self).details().remove(id@) =~= old(self).details());
                }
            }
        }
    }
}

} // verus!
