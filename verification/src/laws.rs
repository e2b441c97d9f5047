//! Properties that relate several operations of the library.

use vstd::prelude::*;
use crate::offline::{OfflineTrack, has_track_id, unique_track_ids, with_track};
use crate::models::{AudioQuality, TrackData, ArtistAlbumEntry, ArtistSubTab, album_on_tab, contains_seq, lowercase};
use crate::protocol::{
    ActiveTab, next_tab, prev_tab, SearchCategory, search_category_at, search_category_index,
    FavoritesCategory, favorites_category_at, favorites_category_index, OfflineCategory, other_offline_category,
};
use crate::player::{RepeatMode, next_repeat};
use crate::text::{is_control, sanitized, strip_controls, prefix_upto, MAX_FIELD_LEN};
use crate::decrypt::{stripe_decrypted, blowfish_cbc_decrypt, BLOCK_SIZE};
use crate::gateway::{text_less, insert_pos, sort_newest_first, ListKind, list_row, opt_text};
use crate::json::{Json, id_field};
use crate::models::DisplayItem;
use crate::daemon::tick::ticks;
use crate::client::{
    Key, KeyCode, KeyAction, Overlay, OverlayStack, NavChange, is_subsequence, triple_greater, version_triple,
    popped, pushed, nav_of,
};
use crate::client::keys::ClientView;
use crate::daemon::{Daemon, AsyncResult, Effect, StatusMsg, ErrorKind};
use crate::daemon::playback::{advances, goes_back, plays, resumes};
use crate::player::PlaybackStatus;
use crate::daemon::fetch::{FetchState, FetchEvent, FetchAction, fetch_next};
use crate::daemon::results::{handles_result, handles_media_result, is_account_result, is_content_result};
use crate::client::main_keys::main_key;
use crate::client::overlay_keys::waiting_list_key;
use crate::i18n::{Strings, Locale};
use crate::theme::ThemeId;

verus! {

// ----- offline index -----

/// A track just added is in the index.
pub proof fn added_track_is_present(tracks: Seq<OfflineTrack>, track: TrackData, quality: AudioQuality)
    ensures
        has_track_id(with_track(tracks, track, quality), track.track_id@),
{
    if !has_track_id(tracks, track.track_id@) {
        let r = tracks.push(OfflineTrack { track, quality });
        assert(r[tracks.len() as int].track.track_id@ == track.track_id@);
    }
}

/// Adding a track whose id is already present changes nothing, so adding
/// the same track twice is adding it once.
pub proof fn adding_twice_is_adding_once(
    tracks: Seq<OfflineTrack>,
    track: TrackData,
    quality: AudioQuality,
    again: TrackData,
    again_quality: AudioQuality,
)
    requires
        again.track_id@ == track.track_id@,
    ensures
        with_track(with_track(tracks, track, quality), again, again_quality) == with_track(tracks, track, quality),
{
    added_track_is_present(tracks, track, quality);
}

/// Adding keeps the track ids of the index distinct.
pub proof fn adding_keeps_ids_unique(tracks: Seq<OfflineTrack>, track: TrackData, quality: AudioQuality)
    requires
        unique_track_ids(tracks),
    ensures
        unique_track_ids(with_track(tracks, track, quality)),
{
    if !has_track_id(tracks, track.track_id@) {
        let r = tracks.push(OfflineTrack { track, quality });
        assert forall|i: int, j: int| 0 <= i < j < r.len()
            implies (#[trigger] r[i]).track.track_id@ != (#[trigger] r[j]).track.track_id@ by {
            if j == tracks.len() {
                assert(r[i] == tracks[i]);
            } else {
                assert(r[i] == tracks[i] && r[j] == tracks[j]);
            }
        }
    }
}

/// After `remove_track(id)` no track with that id is left.
pub proof fn removed_track_is_absent(tracks: Seq<OfflineTrack>, id: Seq<char>)
    ensures
        !has_track_id(tracks.filter(|t: OfflineTrack| t.track.track_id@ != id), id),
{
    let f = tracks.filter(|t: OfflineTrack| t.track.track_id@ != id);
    assert forall|i: int| 0 <= i < f.len() implies (#[trigger] f[i]).track.track_id@ != id by {
        tracks.filter_lemma(|t: OfflineTrack| t.track.track_id@ != id);
    }
}

// ----- cycling through tabs, categories and modes -----

/// Going to the next tab and back is staying, and so is the reverse.
pub proof fn tabs_next_prev_inverse(t: ActiveTab)
    ensures
        prev_tab(next_tab(t)) == t,
        next_tab(prev_tab(t)) == t,
{
}

/// Four steps forward through the tabs come back to the start.
pub proof fn tabs_cycle(t: ActiveTab)
    ensures
        next_tab(next_tab(next_tab(next_tab(t)))) == t,
{
}

/// The next and previous search categories undo each other.
pub proof fn search_categories_next_prev_inverse(c: SearchCategory)
    ensures
        search_category_at((search_category_index(search_category_at((search_category_index(c) + 1) % 7)) + 6) % 7) == c,
        search_category_at((search_category_index(search_category_at((search_category_index(c) + 6) % 7)) + 1) % 7) == c,
{
}

/// The next and previous favorites categories undo each other.
pub proof fn favorites_categories_next_prev_inverse(c: FavoritesCategory)
    ensures
        favorites_category_at((favorites_category_index(favorites_category_at((favorites_category_index(c) + 1) % 6)) + 5) % 6) == c,
        favorites_category_at((favorites_category_index(favorites_category_at((favorites_category_index(c) + 5) % 6)) + 1) % 6) == c,
{
}

/// The offline tab switches between its two categories.
pub proof fn offline_categories_alternate(c: OfflineCategory)
    ensures
        other_offline_category(other_offline_category(c)) == c,
        other_offline_category(c) != c,
{
}

/// Three presses of the repeat key come back to the first mode.
pub proof fn repeat_modes_cycle(r: RepeatMode)
    ensures
        next_repeat(next_repeat(next_repeat(r))) == r,
        next_repeat(r) != r,
{
}

// ----- sanitising -----

proof fn lemma_strip_controls_clean(s: Seq<char>)
    ensures
        forall|i: int| 0 <= i < strip_controls(s).len() ==> !is_control(#[trigger] strip_controls(s)[i]),
        strip_controls(s).len() <= s.len(),
    decreases s.len(),
{
    if s.len() > 0 {
        lemma_strip_controls_clean(s.drop_last());
    }
}

/// What `sanitize` keeps holds no control character and at most
/// `MAX_FIELD_LEN` characters.
pub proof fn sanitized_is_clean_and_short(s: Seq<char>)
    ensures
        sanitized(s).len() <= MAX_FIELD_LEN,
        sanitized(s).len() <= s.len(),
        forall|i: int| 0 <= i < sanitized(s).len() ==> !is_control(#[trigger] sanitized(s)[i]),
{
    lemma_strip_controls_clean(s);
    let t = strip_controls(s);
    if t.len() > MAX_FIELD_LEN {
        assert forall|i: int| 0 <= i < sanitized(s).len() implies !is_control(#[trigger] sanitized(s)[i]) by {
            assert(sanitized(s)[i] == t[i]);
        }
    }
}

/// Sanitising text that is already clean and short gives it back.
pub proof fn sanitize_keeps_clean_text(s: Seq<char>)
    requires
        s.len() <= MAX_FIELD_LEN,
        forall|i: int| 0 <= i < s.len() ==> !is_control(#[trigger] s[i]),
    ensures
        sanitized(s) == s,
    decreases s.len(),
{
    lemma_strip_identity(s);
}

proof fn lemma_strip_identity(s: Seq<char>)
    requires
        forall|i: int| 0 <= i < s.len() ==> !is_control(#[trigger] s[i]),
    ensures
        strip_controls(s) == s,
    decreases s.len(),
{
    if s.len() > 0 {
        assert forall|i: int| 0 <= i < s.drop_last().len() implies !is_control(#[trigger] s.drop_last()[i]) by {
            assert(s.drop_last()[i] == s[i]);
        }
        lemma_strip_identity(s.drop_last());
        assert(!is_control(s[s.len() - 1]));
        assert(s.drop_last().push(s.last()) =~= s);
    }
}

// ----- striped decryption -----

/// Decryption keeps the length, and leaves alone every byte outside the
/// encrypted stripes (blocks 1, 2, 4, 5, ... and a trailing partial block).
pub proof fn stripes_leave_clear_blocks(data: Seq<u8>, key: Seq<u8>, i: int)
    requires
        0 <= i < data.len(),
        (i / (BLOCK_SIZE as int)) % 3 != 0 || (i / (BLOCK_SIZE as int)) * (BLOCK_SIZE as int) + (BLOCK_SIZE as int) > data.len(),
    ensures
        stripe_decrypted(data, key).len() == data.len(),
        stripe_decrypted(data, key)[i] == data[i],
{
}

// ----- artist albums, newest first -----

proof fn lemma_text_less_irreflexive(a: Seq<char>)
    ensures
        !text_less(a, a),
    decreases a.len(),
{
    if a.len() > 0 {
        lemma_text_less_irreflexive(a.drop_first());
    }
}

proof fn lemma_text_less_transitive(a: Seq<char>, b: Seq<char>, c: Seq<char>)
    requires
        text_less(a, b),
        text_less(b, c),
    ensures
        text_less(a, c),
    decreases a.len(),
{
    if a.len() > 0 && b.len() > 0 && c.len() > 0 && a[0] == b[0] && b[0] == c[0] {
        lemma_text_less_transitive(a.drop_first(), b.drop_first(), c.drop_first());
    }
}

/// Entries are ordered newest first: no entry is older than one after it.
pub open spec fn newest_first(s: Seq<ArtistAlbumEntry>) -> bool {
    forall|i: int, j: int| 0 <= i < j < s.len() ==> !text_less(#[trigger] s[i].release_date@, #[trigger] s[j].release_date@)
}

proof fn lemma_insert_pos_split(t: Seq<ArtistAlbumEntry>, d: Seq<char>)
    ensures
        0 <= insert_pos(t, d) <= t.len(),
        forall|k: int| 0 <= k < insert_pos(t, d) ==> !text_less(#[trigger] t[k].release_date@, d),
        insert_pos(t, d) < t.len() ==> text_less(t[insert_pos(t, d)].release_date@, d),
    decreases t.len(),
{
    if t.len() > 0 && !text_less(t[0].release_date@, d) {
        lemma_insert_pos_split(t.drop_first(), d);
        assert forall|k: int| 0 <= k < insert_pos(t, d) implies !text_less(#[trigger] t[k].release_date@, d) by {
            if k > 0 {
                assert(t[k] == t.drop_first()[k - 1]);
            }
        }
        if insert_pos(t, d) < t.len() {
            assert(t[insert_pos(t, d)] == t.drop_first()[insert_pos(t, d) - 1]);
        }
    }
}

/// The albums of an artist come out newest first.
pub proof fn artist_albums_are_newest_first(s: Seq<ArtistAlbumEntry>)
    ensures
        newest_first(sort_newest_first(s)),
        sort_newest_first(s).len() == s.len(),
    decreases s.len(),
{
    if s.len() > 0 {
        artist_albums_are_newest_first(s.drop_last());
        let t = sort_newest_first(s.drop_last());
        let x = s.last();
        let d = x.release_date@;
        lemma_insert_pos_split(t, d);
        let p = insert_pos(t, d);
        let r = t.insert(p, x);
        assert(r == sort_newest_first(s));
        assert forall|i: int, j: int| 0 <= i < j < r.len()
            implies !text_less(#[trigger] r[i].release_date@, #[trigger] r[j].release_date@) by {
            if j < p {
                assert(r[i] == t[i] && r[j] == t[j]);
            } else if j == p {
                assert(r[i] == t[i] && r[j] == x);
            } else if i < p {
                assert(r[i] == t[i] && r[j] == t[j - 1]);
                assert(!text_less(t[i].release_date@, t[j - 1].release_date@));
            } else if i == p {
                assert(r[i] == x && r[j] == t[j - 1]);
                let e = t[j - 1].release_date@;
                assert(text_less(t[p].release_date@, d));
                if p < j - 1 {
                    assert(!text_less(t[p].release_date@, e));
                }
                if text_less(d, e) {
                    if p < j - 1 {
                        lemma_text_less_transitive(t[p].release_date@, d, e);
                    } else {
                        lemma_text_less_transitive(d, e, d);
                        lemma_text_less_irreflexive(d);
                    }
                }
            } else {
                assert(r[i] == t[i - 1] && r[j] == t[j - 1]);
            }
        }
    }
}

/// Sorting keeps every entry: the result holds the same entries, as many
/// times each.
pub proof fn artist_albums_keep_entries(s: Seq<ArtistAlbumEntry>)
    ensures
        sort_newest_first(s).to_multiset() == s.to_multiset(),
    decreases s.len(),
{
    if s.len() > 0 {
        artist_albums_keep_entries(s.drop_last());
        let t = sort_newest_first(s.drop_last());
        let x = s.last();
        let p = insert_pos(t, x.release_date@);
        lemma_insert_pos_split(t, x.release_date@);
        assert(sort_newest_first(s) == t.insert(p, x));
        vstd::seq_lib::to_multiset_insert(t, p, x);
        vstd::seq_lib::to_multiset_build(s.drop_last(), x);
        assert(s.drop_last().push(x) =~= s);
        assert(sort_newest_first(s).to_multiset() == t.to_multiset().insert(x));
        assert(s.to_multiset() == s.drop_last().to_multiset().insert(x));
    } else {
        assert(sort_newest_first(s) =~= s);
    }
}


// ----- the client -----

/// Every query matches itself.
pub proof fn query_matches_itself(q: Seq<char>)
    ensures
        is_subsequence(q, q),
    decreases q.len(),
{
    if q.len() > 0 {
        query_matches_itself(q.drop_first());
    }
}

/// No version is newer than itself.
pub proof fn version_not_newer_than_itself(v: Seq<char>)
    ensures
        !triple_greater(version_triple(v), version_triple(v)),
{
}

/// Of two versions, at most one is newer than the other.
pub proof fn newer_version_is_one_way(a: Seq<char>, b: Seq<char>)
    ensures
        triple_greater(version_triple(a), version_triple(b)) ==> !triple_greater(version_triple(b), version_triple(a)),
{
}

/// Opening an overlay and going back shows again what was shown before, and
/// the daemon's mirror of the pages sees a push and a pop. (Overlays wait on
/// the stack only under an open one.)
pub proof fn push_then_pop_restores(pre: OverlayStack, mid: OverlayStack, post: OverlayStack, o: Overlay)
    requires
        pre.overlay is None ==> pre.stack@.len() == 0,
        pushed(pre, mid, o),
        popped(mid, post),
    ensures
        post.overlay == pre.overlay,
        post.stack@ == pre.stack@,
        post.nav_changes@ == (match nav_of(o) {
            Some(n) => pre.nav_changes@.push(NavChange::Push(n)).push(NavChange::Pop),
            None => pre.nav_changes@,
        }),
{
    match pre.overlay {
        Some(cur) => {
            assert(mid.stack@.last() == cur);
            assert(mid.stack@.drop_last() =~= pre.stack@);
        },
        None => {},
    }
}

/// Ctrl+Q quits from anywhere, leaving the view as it was.
pub proof fn ctrl_q_quits(
    pre: ClientView,
    post: ClientView,
    s: Strings,
    theme: ThemeId,
    locale: Locale,
    action: KeyAction,
)
    requires
        main_key(pre, post, Key { code: KeyCode::Char('q'), ctrl: true }, s, theme, locale, action),
    ensures
        action is Quit,
        post == pre,
{
}

/// The track that plays is never removed from the queue.
pub proof fn playing_track_stays_queued(pre: ClientView, post: ClientView, key: Key, s: Strings, action: KeyAction)
    requires
        key.code == KeyCode::Delete || key.code == KeyCode::Char('d'),
        waiting_list_key(pre, post, pre.queue_index, key, s, action),
    ensures
        !(action is SendCommand && action->SendCommand_0 is RemoveFromQueue),
{
}


// ----- the daemon -----

/// An answer about a track that is no longer the one asked for (an older
/// request) changes nothing and asks for nothing.
pub proof fn stale_track_answers_are_ignored(
    pre: Daemon,
    post: Daemon,
    r: AsyncResult,
    now: u64,
    random: u64,
    eff: Seq<Effect>,
)
    requires
        handles_result(pre, post, r, now, random, eff),
        r matches AsyncResult::TrackReady { generation, .. } ==> generation != pre.track_generation,
        r matches AsyncResult::TrackFetchError { generation, .. } ==> generation != pre.track_generation,
        r is TrackReady || r is TrackFetchError,
    ensures
        post == pre,
        eff.len() == 0,
{
    reveal(handles_media_result);
    assert(!is_account_result(r) && !is_content_result(r));
}


/// Skipping ahead leaves the count of skips in a row as it was.
proof fn advances_keeps_skip_count(pre: Daemon, post: Daemon, now: u64, random: u64, eff: Seq<Effect>)
    requires
        advances(pre, post, now, random, eff),
    ensures
        post.consecutive_skip_count == pre.consecutive_skip_count,
{
    reveal(plays);
    reveal(resumes);
}

/// The daemon after the failed fetch `i` of a run, before it skips ahead:
/// the error shows and the run counts `i + 1` failures.
pub open spec fn failed_fetch_noted(pre: Daemon, err: String, i: int) -> Daemon {
    Daemon {
        status_msg: Some(StatusMsg::Error(ErrorKind::Track, err)),
        consecutive_skip_count: (i + 1) as u32,
        ..pre
    }
}

/// Six track fetches that fail in a row, each for the track then asked
/// for and starting from a count of zero, skip ahead to the next track five
/// times; the sixth failure skips no more, stops playback and sets the count
/// back to zero. Each failure shows its error.
pub proof fn six_failed_fetches_stop_playback(
    d: Seq<Daemon>,
    errs: Seq<String>,
    now: Seq<u64>,
    random: Seq<u64>,
    eff: Seq<Seq<Effect>>,
)
    requires
        d.len() == 7,
        errs.len() == 6,
        now.len() == 6,
        random.len() == 6,
        eff.len() == 6,
        d[0].consecutive_skip_count == 0,
        forall|i: int| #![trigger errs[i]] 0 <= i < 6 ==> handles_result(
            d[i],
            d[i + 1],
            AsyncResult::TrackFetchError { err: errs[i], generation: d[i].track_generation },
            now[i],
            random[i],
            eff[i],
        ),
    ensures
        forall|i: int| 0 <= i < 5 ==> {
            &&& advances(failed_fetch_noted(d[i], errs[i], i), #[trigger] d[i + 1], now[i], random[i], eff[i])
            &&& d[i + 1].consecutive_skip_count == i + 1
        },
        d[6] == (Daemon {
            status_msg: Some(StatusMsg::Error(ErrorKind::Track, errs[5])),
            consecutive_skip_count: 0,
            player: crate::player::PlayerState { status: PlaybackStatus::Stopped, ..d[5].player },
            ..d[5]
        }),
        eff[5].len() == 0,
{
    failed_fetch_skips(d[0], d[1], errs[0], now[0], random[0], eff[0], 0);
    failed_fetch_skips(d[1], d[2], errs[1], now[1], random[1], eff[1], 1);
    failed_fetch_skips(d[2], d[3], errs[2], now[2], random[2], eff[2], 2);
    failed_fetch_skips(d[3], d[4], errs[3], now[3], random[3], eff[3], 3);
    failed_fetch_skips(d[4], d[5], errs[4], now[4], random[4], eff[4], 4);
    reveal(handles_media_result);
    let r = AsyncResult::TrackFetchError { err: errs[5], generation: d[5].track_generation };
    assert(handles_result(d[5], d[6], r, now[5], random[5], eff[5]));
    assert(!is_account_result(r) && !is_content_result(r));
}

/// One failure of such a run, after `i < 5` others: it skips ahead and
/// counts `i + 1`.
proof fn failed_fetch_skips(pre: Daemon, post: Daemon, err: String, now: u64, random: u64, eff: Seq<Effect>, i: int)
    requires
        0 <= i < 5,
        pre.consecutive_skip_count == i,
        handles_result(pre, post, AsyncResult::TrackFetchError { err, generation: pre.track_generation }, now, random, eff),
    ensures
        advances(failed_fetch_noted(pre, err, i), post, now, random, eff),
        post.consecutive_skip_count == i + 1,
{
    reveal(handles_media_result);
    let r = AsyncResult::TrackFetchError { err, generation: pre.track_generation };
    assert(!is_account_result(r) && !is_content_result(r));
    assert(failed_fetch_noted(pre, err, i).consecutive_skip_count == i + 1);
    advances_keeps_skip_count(failed_fetch_noted(pre, err, i), post, now, random, eff);
}

/// How many answered steps a fetch in `s` has left at most.
pub open spec fn fetch_steps_left(s: FetchState) -> nat {
    match s {
        FetchState::Token => 7,
        FetchState::FirstUrl { .. } => 6,
        FetchState::Refresh { .. } => 5,
        FetchState::RetryUrl { .. } => 4,
        FetchState::FallbackTrack => 3,
        FetchState::FallbackUrl { .. } => 2,
        FetchState::Download { .. } => 1,
        FetchState::Done => 0,
    }
}

/// A fetch always ends: an answer either leaves the fetch as it was and asks
/// for nothing, or moves it strictly nearer its end; it reports its outcome
/// exactly when it ends.
pub proof fn fetch_progresses(s: FetchState, e: FetchEvent)
    ensures
        fetch_next(s, e).1 is Wait ==> fetch_next(s, e).0 == s,
        !(fetch_next(s, e).1 is Wait) ==> fetch_steps_left(fetch_next(s, e).0) < fetch_steps_left(s),
        (fetch_next(s, e).1 is Ready || fetch_next(s, e).1 is Failed) <==> (fetch_next(s, e).0 is Done && !(s is Done)),
{
}


// ----- what the operations are for -----

proof fn lemma_stripe_block(b: int, k: int)
    by (nonlinear_arith)
    requires
        0 <= b,
        0 <= k < 2048,
    ensures
        (b * 2048 + k) / 2048 == b,
        (b * 2048 + k) % 2048 == k,
{
}

/// Each decrypted stripe (a full block whose index is a multiple of three)
/// is the Blowfish-CBC decryption of that block under the track key with the
/// fixed IV `00 01 02 03 04 05 06 07`.
pub proof fn stripes_decrypt_under_the_fixed_iv(data: Seq<u8>, key: Seq<u8>, b: int, k: int)
    requires
        0 <= b,
        b % 3 == 0,
        (b + 1) * 2048 <= data.len(),
        0 <= k < 2048,
    ensures
        stripe_decrypted(data, key)[b * 2048 + k] == blowfish_cbc_decrypt(
            key,
            seq![0u8, 1u8, 2u8, 3u8, 4u8, 5u8, 6u8, 7u8],
            data.subrange(b * 2048, b * 2048 + 2048),
        )[k],
{
    lemma_stripe_block(b, k);
    assert(BLOCK_SIZE == 2048);
    assert(b * 2048 + k < data.len()) by (nonlinear_arith)
        requires (b + 1) * 2048 <= data.len(), 0 <= k < 2048;
    assert(crate::decrypt::stripe_iv() =~= seq![0u8, 1u8, 2u8, 3u8, 4u8, 5u8, 6u8, 7u8]);
}

/// Going back from queue position `i > 0` moves to position `i - 1` and, when
/// the daemon can play (online, key loaded), fetches and shows the track at
/// `i - 1`; the queue itself is unchanged.
pub proof fn going_back_plays_the_previous_track(pre: Daemon, post: Daemon, now: u64, eff: Seq<Effect>)
    requires
        goes_back(pre, post, now, eff),
        0 < pre.player.queue_index < pre.player.queue@.len(),
    ensures
        post.player.queue_index == pre.player.queue_index - 1,
        post.player.queue == pre.player.queue,
        !pre.is_offline && pre.master_key is Some ==> {
            let prev = pre.player.queue@[pre.player.queue_index - 1];
            &&& post.player.current_track == Some(prev)
            &&& eff.len() == 1
            &&& eff[0] matches Effect::FetchTrack { track, .. } && track == prev
        },
{
    reveal(plays);
}

/// The queue position that skipping ahead from `pre` moves to, if any: a
/// random one when shuffling; else the next one, or the first under
/// repeat-queue at the end.
pub open spec fn next_position(pre: Daemon, random: u64) -> Option<int> {
    let n = pre.player.queue@.len() as int;
    let i = pre.player.queue_index as int;
    if n == 0 {
        None
    } else if pre.player.shuffle {
        Some((random as int) % n)
    } else if i + 1 < n {
        Some(i + 1)
    } else if pre.player.repeat == RepeatMode::Queue {
        Some(0)
    } else {
        None
    }
}

/// Skipping ahead moves the queue to the position given by `next_position`
/// and, when the daemon can play, fetches and shows the track there; with no
/// such position the queue position stays and no track is fetched.
pub proof fn skipping_ahead_plays_the_next_track(pre: Daemon, post: Daemon, now: u64, random: u64, eff: Seq<Effect>)
    requires
        advances(pre, post, now, random, eff),
    ensures
        post.player.queue == pre.player.queue,
        next_position(pre, random) matches Some(j) ==> {
            &&& post.player.queue_index == j
            &&& !pre.is_offline && pre.master_key is Some ==> {
                &&& post.player.current_track == Some(pre.player.queue@[j])
                &&& eff.len() == 1
                &&& eff[0] matches Effect::FetchTrack { track, .. } && track == pre.player.queue@[j]
            }
        },
        next_position(pre, random) is None ==> post.player.queue_index == pre.player.queue_index
            && !(eff.len() > 0 && eff[0] is FetchTrack),
{
    reveal(plays);
    reveal(resumes);
    assert(pre.player.queue@.len() == pre.player.queue.len());
}

/// Going back from the first position under repeat-queue moves to the last
/// one and, when the daemon can play, fetches the last track.
pub proof fn going_back_wraps_under_repeat_queue(pre: Daemon, post: Daemon, now: u64, eff: Seq<Effect>)
    requires
        goes_back(pre, post, now, eff),
        pre.player.queue_index == 0,
        pre.player.queue@.len() > 0,
        pre.player.repeat == RepeatMode::Queue,
    ensures
        post.player.queue_index == pre.player.queue@.len() - 1,
        !pre.is_offline && pre.master_key is Some ==> {
            let last = pre.player.queue@[pre.player.queue@.len() - 1];
            &&& post.player.current_track == Some(last)
            &&& eff.len() == 1
            &&& eff[0] matches Effect::FetchTrack { track, .. } && track == last
        },
{
    reveal(plays);
    assert(pre.player.queue@.len() == pre.player.queue.len());
}

/// When the engine finishes a playing track under repeat-track, the tick
/// starts that same track again and stays at its queue position.
pub proof fn repeat_track_replays_the_finished_track(
    pre: Daemon,
    post: Daemon,
    now: u64,
    random: u64,
    eff: Seq<Effect>,
    t: TrackData,
)
    requires
        ticks(pre, post, now, true, random, eff),
        pre.has_engine,
        pre.player.status == PlaybackStatus::Playing,
        pre.player.repeat == RepeatMode::Track,
        pre.player.current_track == Some(t),
    ensures
        post.player.queue_index == pre.player.queue_index,
        post.player.queue == pre.player.queue,
        !pre.is_offline && pre.master_key is Some ==> {
            &&& post.player.current_track == Some(t)
            &&& post.player.status == PlaybackStatus::Loading
            &&& eff.len() == 1
            &&& eff[0] matches Effect::FetchTrack { track, .. } && track == t
        },
{
    reveal(plays);
}

/// A row of a list answer that can be opened carries the id of its entry:
/// album rows their album id, playlist rows their playlist id.
pub proof fn list_rows_carry_entry_ids(kind: ListKind, e: Json, d: DisplayItem)
    requires
        list_row(kind, e, d),
    ensures
        kind == ListKind::AlbumSearch || kind == ListKind::FavoriteAlbums ==> opt_text(d.album_id) == id_field(e)
            && d.playlist_id is None,
        kind == ListKind::Playlists ==> opt_text(d.playlist_id) == id_field(e) && d.album_id is None,
        d.track is None,
{
}

/// A title that marks a live recording: its lower-cased form contains
/// "live", "concert" or "en direct".
pub open spec fn live_title(title: Seq<char>) -> bool {
    contains_seq(lowercase(title), "live"@) || contains_seq(lowercase(title), "concert"@)
        || contains_seq(lowercase(title), "en direct"@)
}

/// The Albums, Lives and Other sub-tabs split an artist's albums: each album
/// is on exactly one of them. Live titles go to Lives; the others go to
/// Albums when their record type is "album", else to Other.
pub proof fn album_tabs_partition(a: ArtistAlbumEntry)
    ensures
        (album_on_tab(a, ArtistSubTab::Albums) as int) + (album_on_tab(a, ArtistSubTab::Lives) as int)
            + (album_on_tab(a, ArtistSubTab::Other) as int) == 1,
        live_title(a.title@) ==> album_on_tab(a, ArtistSubTab::Lives),
        !live_title(a.title@) && a.record_type@ == "album"@ ==> album_on_tab(a, ArtistSubTab::Albums),
        !live_title(a.title@) && a.record_type@ != "album"@ ==> album_on_tab(a, ArtistSubTab::Other),
        !album_on_tab(a, ArtistSubTab::TopTracks) && !album_on_tab(a, ArtistSubTab::Similar),
{
}

/// The lists of the three album sub-tabs together hold each album once: their
/// lengths add up to the number of albums.
pub proof fn album_tab_lists_add_up(albums: Seq<ArtistAlbumEntry>)
    ensures
        albums.filter(|a: ArtistAlbumEntry| album_on_tab(a, ArtistSubTab::Albums)).len()
            + albums.filter(|a: ArtistAlbumEntry| album_on_tab(a, ArtistSubTab::Lives)).len()
            + albums.filter(|a: ArtistAlbumEntry| album_on_tab(a, ArtistSubTab::Other)).len() == albums.len(),
    decreases albums.len(),
{
    if albums.len() > 0 {
        let rest = albums.drop_last();
        let last = albums.last();
        album_tab_lists_add_up(rest);
        album_tabs_partition(last);
        assert(albums == rest.push(last));
        rest.lemma_filter_push(last, |a: ArtistAlbumEntry| album_on_tab(a, ArtistSubTab::Albums));
        rest.lemma_filter_push(last, |a: ArtistAlbumEntry| album_on_tab(a, ArtistSubTab::Lives));
        rest.lemma_filter_push(last, |a: ArtistAlbumEntry| album_on_tab(a, ArtistSubTab::Other));
    } else {
        assert(albums.filter(|a: ArtistAlbumEntry| album_on_tab(a, ArtistSubTab::Albums)) =~= Seq::<ArtistAlbumEntry>::empty());
        assert(albums.filter(|a: ArtistAlbumEntry| album_on_tab(a, ArtistSubTab::Lives)) =~= Seq::<ArtistAlbumEntry>::empty());
        assert(albums.filter(|a: ArtistAlbumEntry| album_on_tab(a, ArtistSubTab::Other)) =~= Seq::<ArtistAlbumEntry>::empty());
    }
}

} // verus!
