//! Reading the answers of the Deezer gateway and public APIs, and the
//! requests that depend on the session.

use vstd::prelude::*;
use crate::json::{
    Json, JsonNumber, json_get, json_at, json_str, json_array, json_u64, str_field, u64_field,
    id_field, nested_str_field, get_str, get_u64, get_nested_str, get_id,
};
use crate::models::{AudioQuality, DeezerError, TrackData, DisplayItem, UserData, AlbumDetail, PlaylistDetail,
    ArtistAlbumEntry, fallback_order, api_format, user_uploaded};
use crate::text::{push_all, push_dec, dec, parse_u64, parse_u64_spec};

verus! {

/// Gateway endpoint.
pub const GW_LIGHT_URL: &'static str = "https://www.deezer.com/ajax/gw-light.php";

/// Media endpoint that hands out stream URLs.
pub const MEDIA_URL: &'static str = "https://media.deezer.com/v1/get_url";

/// An authenticated session.
#[derive(Debug)]
pub struct Session {
    pub api_token: String,
    pub license_token: String,
    pub user_id: u64,
    pub user_name: String,
}

/// `DeezerError::Api` with this text.
pub open spec fn is_api_error(e: DeezerError, text: Seq<char>) -> bool {
    e is Api && e->Api_0@ == text
}

fn api_error(text: &str) -> (e: DeezerError)
    ensures
        is_api_error(e, text@),
{
    let mut m = String::new();
    push_all(&mut m, text);
    DeezerError::Api(m)
}

/// The session of an account: refused when the token gave no user.
pub fn session_from_user_data(user_data: UserData) -> (r: Result<Session, DeezerError>)
    ensures
        user_data.user.user_id == 0 ==> r is Err && r->Err_0 is Auth
            && r->Err_0->Auth_0@ == "Invalid ARL token — user_id is 0"@,
        user_data.user.user_id != 0 ==> r is Ok && r->Ok_0 == (Session {
            api_token: user_data.api_token,
            license_token: user_data.user.options.license_token,
            user_id: user_data.user.user_id,
            user_name: user_data.user.user_name,
        }),
{
    if user_data.user.user_id == 0 {
        let mut m = String::new();
        push_all(&mut m, "Invalid ARL token — user_id is 0");
        return Err(DeezerError::Auth(m));
    }
    Ok(Session {
        api_token: user_data.api_token,
        license_token: user_data.user.options.license_token,
        user_id: user_data.user.user_id,
        user_name: user_data.user.user_name,
    })
}

/// The API token of the session, if logged in.
pub fn api_token(session: &Option<Session>) -> (r: Result<&str, DeezerError>)
    ensures
        session is Some ==> r is Ok && r->Ok_0@ == session->0.api_token@,
        session is None ==> r is Err && r->Err_0 is Auth && r->Err_0->Auth_0@ == "Not authenticated"@,
{
    match session {
        Some(s) => Ok(s.api_token.as_str()),
        None => {
            let mut m = String::new();
            push_all(&mut m, "Not authenticated");
            Err(DeezerError::Auth(m))
        }
    }
}

/// The gateway URL of a method call.
pub open spec fn gw_url_text(method: Seq<char>, api_token: Seq<char>) -> Seq<char> {
    GW_LIGHT_URL@ + "?method="@ + method + "&input=3&api_version=1.0&api_token="@ + api_token
}

pub fn gw_url(method: &str, api_token: &str) -> (r: String)
    ensures
        r@ == gw_url_text(method@, api_token@),
{
    let mut r = String::new();
    push_all(&mut r, GW_LIGHT_URL);
    push_all(&mut r, "?method=");
    push_all(&mut r, method);
    push_all(&mut r, "&input=3&api_version=1.0&api_token=");
    push_all(&mut r, api_token);
    r
}

/// The gateway reports an error: a non-empty object under `error`.
pub open spec fn gw_error(body: Json) -> Option<Json> {
    match json_get(body, "error"@) {
        Some(Json::Object(entries)) => if entries@.len() > 0 { Some(Json::Object(entries)) } else { None },
        _ => None,
    }
}

/// What a gateway call gives: its `results`, unless it reports an error.
/// `error_text` is the answer's `error` value printed as compact JSON text,
/// by the JSON library that read the answer; it becomes the error's text.
pub fn gw_results<'a>(body: &'a Json, error_text: &str) -> (r: Result<&'a Json, DeezerError>)
    ensures
        gw_error(*body) is Some ==> r is Err && is_api_error(r->Err_0, error_text@),
        gw_error(*body) is None && json_get(*body, "results"@) is Some ==> r is Ok
            && *r->Ok_0 == json_get(*body, "results"@)->0,
        gw_error(*body) is None && json_get(*body, "results"@) is None ==> r is Err
            && is_api_error(r->Err_0, "Missing 'results' in response"@),
{
    proof {
        reveal_strlit("error");
        reveal_strlit("results");
    }
    if let Some(error) = body.get("error") {
        if let Json::Object(entries) = error {
            if entries.len() > 0 {
                return Err(api_error(error_text));
            }
        }
    }
    match body.get("results") {
        Some(r) => Ok(r),
        None => Err(api_error("Missing 'results' in response")),
    }
}

/// `v[key]`, or an API error with text `missing`.
fn required<'a>(v: &'a Json, key: &str, missing: &str) -> (r: Result<&'a Json, DeezerError>)
    ensures
        json_get(*v, key@) is Some ==> r is Ok && *r->Ok_0 == json_get(*v, key@)->0,
        json_get(*v, key@) is None ==> r is Err && is_api_error(r->Err_0, missing@),
{
    match v.get(key) {
        Some(x) => Ok(x),
        None => Err(api_error(missing)),
    }
}

/// The `data` of a `song.getListData` answer.
pub fn track_list_data(results: &Json) -> (r: Result<&Json, DeezerError>)
    ensures
        json_get(*results, "data"@) is Some ==> r is Ok && *r->Ok_0 == json_get(*results, "data"@)->0,
        json_get(*results, "data"@) is None ==> r is Err
            && is_api_error(r->Err_0, "Missing 'data' in track list response"@),
{
    required(results, "data", "Missing 'data' in track list response")
}

/// The `TRACK` section of a `deezer.pageSearch` answer.
pub fn search_track_results(results: &Json) -> (r: Result<&Json, DeezerError>)
    ensures
        json_get(*results, "TRACK"@) is Some ==> r is Ok && *r->Ok_0 == json_get(*results, "TRACK"@)->0,
        json_get(*results, "TRACK"@) is None ==> r is Err
            && is_api_error(r->Err_0, "Missing 'TRACK' in search results"@),
{
    required(results, "TRACK", "Missing 'TRACK' in search results")
}

/// The `data` of a `favorite_song.getList` answer.
pub fn favorites_data(results: &Json) -> (r: Result<&Json, DeezerError>)
    ensures
        json_get(*results, "data"@) is Some ==> r is Ok && *r->Ok_0 == json_get(*results, "data"@)->0,
        json_get(*results, "data"@) is None ==> r is Err
            && is_api_error(r->Err_0, "Missing 'data' in favorites response"@),
{
    required(results, "data", "Missing 'data' in favorites response")
}

/// The `data` of a `playlist.getList` answer.
pub fn playlists_data(results: &Json) -> (r: Result<&Json, DeezerError>)
    ensures
        json_get(*results, "data"@) is Some ==> r is Ok && *r->Ok_0 == json_get(*results, "data"@)->0,
        json_get(*results, "data"@) is None ==> r is Err
            && is_api_error(r->Err_0, "Missing 'data' in playlists"@),
{
    required(results, "data", "Missing 'data' in playlists")
}

/// The `data` of a `song.getSearchTrackMix` answer.
pub fn smart_radio_data(results: &Json) -> (r: Result<&Json, DeezerError>)
    ensures
        json_get(*results, "data"@) is Some ==> r is Ok && *r->Ok_0 == json_get(*results, "data"@)->0,
        json_get(*results, "data"@) is None ==> r is Err
            && is_api_error(r->Err_0, "Missing 'data' in smart radio response"@),
{
    required(results, "data", "Missing 'data' in smart radio response")
}

/// The `data` of one section of a search answer.
pub fn search_section_data(section: Option<&Json>) -> (r: Result<&Json, DeezerError>)
    ensures
        section is None ==> r is Err && is_api_error(r->Err_0, "Section not found in search results"@),
        section is Some && json_get(*section->0, "data"@) is Some ==> r is Ok
            && *r->Ok_0 == json_get(*section->0, "data"@)->0,
        section is Some && json_get(*section->0, "data"@) is None ==> r is Err
            && is_api_error(r->Err_0, "Missing 'data' in search section"@),
{
    match section {
        None => Err(api_error("Section not found in search results")),
        Some(s) => required(s, "data", "Missing 'data' in search section"),
    }
}

/// Where a listening history may hold its tracks, in the order to try:
/// `TAB.listening_history.data`, then `data`.
pub open spec fn history_paths(res: Json) -> Seq<Json> {
    let first = match json_get(res, "TAB"@) {
        Some(tab) => match json_get(tab, "listening_history"@) {
            Some(h) => match json_get(h, "data"@) {
                Some(d) => seq![d],
                None => seq![],
            },
            None => seq![],
        },
        None => seq![],
    };
    let second = match json_get(res, "data"@) {
        Some(d) => seq![d],
        None => seq![],
    };
    first + second
}

pub fn listening_history_candidates(res: &Json) -> (r: Vec<&Json>)
    ensures
        r@.len() == history_paths(*res).len(),
        forall|i: int| 0 <= i < r@.len() ==> *(#[trigger] r@[i]) == history_paths(*res)[i],
{
    proof {
        reveal_strlit("TAB");
        reveal_strlit("listening_history");
        reveal_strlit("data");
    }
    let mut r: Vec<&Json> = Vec::new();
    if let Some(tab) = res.get("TAB") {
        if let Some(h) = tab.get("listening_history") {
            if let Some(d) = h.get("data") {
                r.push(d);
            }
        }
    }
    if let Some(d) = res.get("data") {
        r.push(d);
    }
    r
}

/// Song ids as the gateway numbers them: the ids that parse as `u64`.
pub open spec fn song_id_numbers(ids: Seq<Seq<char>>) -> Seq<u64>
    decreases ids.len(),
{
    if ids.len() == 0 {
        seq![]
    } else {
        match parse_u64_spec(ids.last()) {
            Some(n) => song_id_numbers(ids.drop_last()).push(n),
            None => song_id_numbers(ids.drop_last()),
        }
    }
}

pub fn song_ids_as_numbers(ids: &Vec<String>) -> (r: Vec<u64>)
    ensures
        r@ == song_id_numbers(Seq::new(ids@.len(), |i: int| ids@[i]@)),
{
    let ghost all = Seq::new(ids@.len(), |i: int| ids@[i]@);
    let mut r: Vec<u64> = Vec::new();
    for i in 0..ids.len()
        invariant
            all == Seq::new(ids@.len(), |i: int| ids@[i]@),
            r@ == song_id_numbers(all.take(i as int)),
    {
        assert(all.take(i + 1).drop_last() =~= all.take(i as int));
        if let Some(n) = parse_u64(ids[i].as_str()) {
            r.push(n);
        }
    }
    assert(all.take(ids@.len() as int) =~= all);
    r
}

/// The ids of the entries of a `data` array that carry a numeric `id`.
pub open spec fn ids_of(items: Seq<Json>) -> Seq<Seq<char>>
    decreases items.len(),
{
    if items.len() == 0 {
        seq![]
    } else {
        match id_field(items.last()) {
            Some(id) => ids_of(items.drop_last()).push(id),
            None => ids_of(items.drop_last()),
        }
    }
}

fn collect_ids(items: &Vec<Json>) -> (r: Vec<String>)
    ensures
        r@.len() == ids_of(items@).len(),
        forall|i: int| 0 <= i < r@.len() ==> (#[trigger] r@[i])@ == ids_of(items@)[i],
{
    let mut r: Vec<String> = Vec::new();
    for i in 0..items.len()
        invariant
            r@.len() == ids_of(items@.take(i as int)).len(),
            forall|k: int| 0 <= k < r@.len() ==> (#[trigger] r@[k])@ == ids_of(items@.take(i as int))[k],
    {
        assert(items@.take(i + 1).drop_last() =~= items@.take(i as int));
        assert(items@.take(i + 1).last() == items@[i as int]);
        if let Some(id) = get_id(&items[i]) {
            r.push(id);
        }
    }
    assert(items@.take(items@.len() as int) =~= items@);
    r
}

/// The track ids listed under `data` (no `data` array: none).
pub open spec fn data_track_ids(resp: Json) -> Seq<Seq<char>> {
    match json_array(json_get(resp, "data"@)) {
        Some(items) => ids_of(items),
        None => seq![],
    }
}

/// The track ids listed under `tracks.data` (none when missing).
pub open spec fn nested_track_ids(resp: Json) -> Seq<Seq<char>> {
    match json_get(resp, "tracks"@) {
        Some(t) => data_track_ids(t),
        None => seq![],
    }
}

/// Track ids of an artist's top tracks answer.
pub fn data_ids(resp: &Json) -> (r: Vec<String>)
    ensures
        r@.len() == data_track_ids(*resp).len(),
        forall|i: int| 0 <= i < r@.len() ==> (#[trigger] r@[i])@ == data_track_ids(*resp)[i],
{
    proof { reveal_strlit("data"); }
    match resp.get("data") {
        Some(d) => match d.as_array() {
            Some(items) => collect_ids(items),
            None => Vec::new(),
        },
        None => Vec::new(),
    }
}

/// Track ids of an album or playlist answer (`tracks.data`).
pub fn tracks_data_ids(resp: &Json) -> (r: Vec<String>)
    ensures
        r@.len() == nested_track_ids(*resp).len(),
        forall|i: int| 0 <= i < r@.len() ==> (#[trigger] r@[i])@ == nested_track_ids(*resp)[i],
{
    proof { reveal_strlit("tracks"); }
    match resp.get("tracks") {
        Some(t) => data_ids(t),
        None => Vec::new(),
    }
}

/// Track ids of a radio's tracks answer; an error when there is no `data`
/// array.
pub fn radio_track_ids(resp: &Json) -> (r: Result<Vec<String>, DeezerError>)
    ensures
        json_array(json_get(*resp, "data"@)) is None ==> r is Err
            && is_api_error(r->Err_0, "Missing 'data' in radio tracks response"@),
        json_array(json_get(*resp, "data"@)) is Some ==> r is Ok
            && r->Ok_0@.len() == data_track_ids(*resp).len()
            && forall|i: int| 0 <= i < r->Ok_0@.len() ==> (#[trigger] r->Ok_0@[i])@ == data_track_ids(*resp)[i],
{
    proof { reveal_strlit("data"); }
    match resp.get("data") {
        Some(d) => match d.as_array() {
            Some(items) => Ok(collect_ids(items)),
            None => Err(api_error("Missing 'data' in radio tracks response")),
        },
        None => Err(api_error("Missing 'data' in radio tracks response")),
    }
}

/// The entries of a radio list answer; an error when there is no `data`
/// array.
pub fn radios_data(resp: &Json) -> (r: Result<&Vec<Json>, DeezerError>)
    ensures
        json_array(json_get(*resp, "data"@)) is None ==> r is Err
            && is_api_error(r->Err_0, "Missing 'data' in radios response"@),
        json_array(json_get(*resp, "data"@)) is Some ==> r is Ok
            && r->Ok_0@ == json_array(json_get(*resp, "data"@))->0,
{
    proof { reveal_strlit("data"); }
    match resp.get("data") {
        Some(d) => match d.as_array() {
            Some(items) => Ok(items),
            None => Err(api_error("Missing 'data' in radios response")),
        },
        None => Err(api_error("Missing 'data' in radios response")),
    }
}

// ----- streaming -----

/// The formats to ask for, in order: user uploads exist only as `MP3_MISC`;
/// other tracks go through the quality's fallback order.
pub open spec fn stream_plan_spec(track: TrackData, quality: AudioQuality) -> Seq<(AudioQuality, Seq<char>)> {
    if user_uploaded(track) {
        seq![(AudioQuality::Mp3_128, "MP3_MISC"@)]
    } else {
        Seq::new(4, |i: int| (fallback_order(quality)[i], api_format(fallback_order(quality)[i])))
    }
}

pub fn stream_plan(track: &TrackData, quality: AudioQuality) -> (r: Vec<(AudioQuality, &'static str)>)
    ensures
        r@.len() == stream_plan_spec(*track, quality).len(),
        forall|i: int| 0 <= i < r@.len() ==> (#[trigger] r@[i]).0 == stream_plan_spec(*track, quality)[i].0
            && r@[i].1@ == stream_plan_spec(*track, quality)[i].1,
{
    let mut r: Vec<(AudioQuality, &'static str)> = Vec::new();
    if track.is_user_uploaded() {
        r.push((AudioQuality::Mp3_128, "MP3_MISC"));
        return r;
    }
    let all = quality.all_fallbacks();
    for i in 0..all.len()
        invariant
            all@ == fallback_order(quality),
            all@.len() == 4,
            !user_uploaded(*track),
            r@.len() == i,
            forall|k: int| 0 <= k < i ==> (#[trigger] r@[k]).0 == all@[k] && r@[k].1@ == api_format(all@[k]),
    {
        let q = all[i];
        r.push((q, q.as_api_format()));
    }
    r
}

/// The stream URL of a media answer: `data[0].media[0].sources[0].url`.
pub open spec fn stream_url_spec(body: Json) -> Option<Seq<char>> {
    match json_get(body, "data"@) {
        Some(d) => match json_at(d, 0) {
            Some(d0) => match json_get(d0, "media"@) {
                Some(m) => match json_at(m, 0) {
                    Some(m0) => match json_get(m0, "sources"@) {
                        Some(s) => match json_at(s, 0) {
                            Some(s0) => json_str(json_get(s0, "url"@)),
                            None => None,
                        },
                        None => None,
                    },
                    None => None,
                },
                None => None,
            },
            None => None,
        },
        None => None,
    }
}

pub fn stream_url(body: &Json) -> (r: Option<String>)
    ensures
        r is Some == stream_url_spec(*body) is Some,
        r is Some ==> r->0@ == stream_url_spec(*body)->0,
{
    proof {
        reveal_strlit("data");
        reveal_strlit("media");
        reveal_strlit("sources");
        reveal_strlit("url");
    }
    let d = body.get("data")?;
    let d0 = d.at(0)?;
    let m = d0.get("media")?;
    let m0 = m.at(0)?;
    let s = m0.get("sources")?;
    let s0 = s.at(0)?;
    let u = s0.get("url")?;
    let text = u.as_str()?;
    let mut r = String::new();
    push_all(&mut r, text);
    Some(r)
}

fn text_json(s: &str) -> (j: Json)
    ensures
        is_text(j, s@),
{
    let mut t = String::new();
    push_all(&mut t, s);
    Json::Str(t)
}

/// `j` is the string `s`.
pub open spec fn is_text(j: Json, s: Seq<char>) -> bool {
    j is Str && j->Str_0@ == s
}

/// `j` is an array of the single value `x`.
pub open spec fn is_single(j: Json, x: Json) -> bool {
    j is Array && j->Array_0@.len() == 1 && j->Array_0@[0] == x
}

/// The format entry of a media request: `{"cipher":"BF_CBC_STRIPE","format":format}`.
pub open spec fn format_entry_spec(j: Json, format: Seq<char>) -> bool {
    &&& j is Object
    &&& j->Object_0@.len() == 2
    &&& j->Object_0@[0].0@ == "cipher"@ && is_text(j->Object_0@[0].1, "BF_CBC_STRIPE"@)
    &&& j->Object_0@[1].0@ == "format"@ && is_text(j->Object_0@[1].1, format)
}

/// The media entry of a media request: `{"type":"FULL","formats":[format entry]}`.
pub open spec fn media_entry_spec(j: Json, format: Seq<char>) -> bool {
    &&& j is Object
    &&& j->Object_0@.len() == 2
    &&& j->Object_0@[0].0@ == "type"@ && is_text(j->Object_0@[0].1, "FULL"@)
    &&& j->Object_0@[1].0@ == "formats"@ && j->Object_0@[1].1 is Array
    &&& j->Object_0@[1].1->Array_0@.len() == 1
    &&& format_entry_spec(j->Object_0@[1].1->Array_0@[0], format)
}

/// The media request for one format of one track:
/// `{"license_token":..,"media":[media entry],"track_tokens":[token]}`.
pub open spec fn media_payload_spec(license: Seq<char>, format: Seq<char>, track_token: Seq<char>, j: Json) -> bool {
    &&& j is Object
    &&& j->Object_0@.len() == 3
    &&& j->Object_0@[0].0@ == "license_token"@ && is_text(j->Object_0@[0].1, license)
    &&& j->Object_0@[1].0@ == "media"@ && j->Object_0@[1].1 is Array
    &&& j->Object_0@[1].1->Array_0@.len() == 1
    &&& media_entry_spec(j->Object_0@[1].1->Array_0@[0], format)
    &&& j->Object_0@[2].0@ == "track_tokens"@ && j->Object_0@[2].1 is Array
    &&& j->Object_0@[2].1->Array_0@.len() == 1
    &&& is_text(j->Object_0@[2].1->Array_0@[0], track_token)
}

fn key(s: &str) -> (k: String)
    ensures
        k@ == s@,
{
    let mut k = String::new();
    push_all(&mut k, s);
    k
}

pub fn media_payload(license_token: &str, format: &str, track_token: &str) -> (j: Json)
    ensures
        media_payload_spec(license_token@, format@, track_token@, j),
{
    let mut f: Vec<(String, Json)> = Vec::new();
    f.push((key("cipher"), text_json("BF_CBC_STRIPE")));
    f.push((key("format"), text_json(format)));
    let mut formats: Vec<Json> = Vec::new();
    formats.push(Json::Object(f));
    let mut m: Vec<(String, Json)> = Vec::new();
    m.push((key("type"), text_json("FULL")));
    m.push((key("formats"), Json::Array(formats)));
    let mut media: Vec<Json> = Vec::new();
    media.push(Json::Object(m));
    let mut tokens: Vec<Json> = Vec::new();
    tokens.push(text_json(track_token));
    let mut top: Vec<(String, Json)> = Vec::new();
    top.push((key("license_token"), text_json(license_token)));
    top.push((key("media"), Json::Array(media)));
    top.push((key("track_tokens"), Json::Array(tokens)));
    Json::Object(top)
}


/// What to do next to find a stream of a track.
#[derive(Debug)]
pub enum StreamStep {
    /// Ask the media service with `payload`; a URL in its answer is served
    /// at `quality`.
    Request { quality: AudioQuality, payload: Json },
    /// A stream was found at `quality`.
    Found { url: String, quality: AudioQuality },
    /// No stream can be had.
    Failed(DeezerError),
}

/// The next step of the search for a stream of `track` at `quality`, given
/// the URLs (or none) that the requests made so far found, in the order of
/// the stream plan: a session and a track token are needed; the first URL
/// found wins; otherwise the next format of the plan is asked for, and when
/// the plan is exhausted the quality is unavailable.
pub open spec fn stream_next(
    session: Option<Session>,
    track: TrackData,
    quality: AudioQuality,
    answers: Seq<Option<String>>,
    r: StreamStep,
) -> bool {
    let plan = stream_plan_spec(track, quality);
    let n = if answers.len() < plan.len() { answers.len() as int } else { plan.len() as int };
    match session {
        None => r matches StreamStep::Failed(DeezerError::Auth(m)) && m@ == "Not authenticated"@,
        Some(s) => match track.track_token {
            None => r matches StreamStep::Failed(DeezerError::TrackUnavailable(m)) && m@ == "Missing TRACK_TOKEN"@,
            Some(token) => {
                if exists|i: int| 0 <= i < n && (#[trigger] answers[i]) is Some {
                    exists|i: int|
                        0 <= i < n && (#[trigger] answers[i]) is Some && (forall|j: int| 0 <= j < i ==> answers[j] is None)
                            && r == (StreamStep::Found { url: answers[i]->0, quality: plan[i].0 })
                } else if answers.len() < plan.len() {
                    r matches StreamStep::Request { quality: q, payload }
                        && q == plan[answers.len() as int].0
                        && media_payload_spec(s.license_token@, plan[answers.len() as int].1, token@, payload)
                } else {
                    r == StreamStep::Failed(DeezerError::QualityUnavailable)
                }
            },
        },
    }
}

/// The next step of the search for a stream (see `stream_next`).
pub fn stream_step(
    session: &Option<Session>,
    track: &TrackData,
    quality: AudioQuality,
    answers: &Vec<Option<String>>,
) -> (r: StreamStep)
    ensures
        stream_next(*session, *track, quality, answers@, r),
{
    let license = match session {
        Some(s) => s.license_token.as_str(),
        None => {
            let mut m = String::new();
            push_all(&mut m, "Not authenticated");
            return StreamStep::Failed(DeezerError::Auth(m));
        },
    };
    let token = match &track.track_token {
        Some(t) => t.as_str(),
        None => {
            let mut m = String::new();
            push_all(&mut m, "Missing TRACK_TOKEN");
            return StreamStep::Failed(DeezerError::TrackUnavailable(m));
        },
    };
    let plan = stream_plan(track, quality);
    let ghost spec_plan = stream_plan_spec(*track, quality);
    let mut k: usize = 0;
    while k < answers.len() && k < plan.len()
        invariant
            k <= answers@.len(),
            k <= plan@.len(),
            plan@.len() == spec_plan.len(),
            forall|i: int| 0 <= i < plan@.len() ==> (#[trigger] plan@[i]).0 == spec_plan[i].0,
            forall|j: int| 0 <= j < k ==> answers@[j] is None,
            session is Some && license@ == session->0.license_token@,
            track.track_token is Some && token@ == track.track_token->0@,
            spec_plan == stream_plan_spec(*track, quality),
        decreases plan@.len() - k,
    {
        if let Some(url) = &answers[k] {
            let q = plan[k].0;
            let r = StreamStep::Found { url: url.clone(), quality: q };
            proof {
                let n = if answers@.len() < spec_plan.len() { answers@.len() as int } else { spec_plan.len() as int };
                let ki = k as int;
                assert(0 <= ki < n && answers@[ki] is Some && (forall|j: int| 0 <= j < ki ==> answers@[j] is None)
                    && r == (StreamStep::Found { url: answers@[ki]->0, quality: spec_plan[ki].0 }));
            }
            return r;
        }
        k += 1;
    }
    if k < plan.len() {
        let (q, f) = plan[k];
        StreamStep::Request { quality: q, payload: media_payload(license, f, token) }
    } else {
        StreamStep::Failed(DeezerError::QualityUnavailable)
    }
}

// ----- lists of the public API -----

/// `Some(text)` of an optional string.
pub open spec fn opt_text(o: Option<String>) -> Option<Seq<char>> {
    match o {
        Some(s) => Some(s@),
        None => None,
    }
}

/// `"{n} titres"`.
pub open spec fn titres(n: u64) -> Seq<char> {
    dec(n as nat) + " titres"@
}

fn titres_text(n: u64) -> (s: String)
    ensures
        s@ == titres(n),
{
    let mut s = String::new();
    push_dec(&mut s, n);
    push_all(&mut s, " titres");
    s
}

fn text_of(t: &str) -> (s: String)
    ensures
        s@ == t@,
{
    let mut s = String::new();
    push_all(&mut s, t);
    s
}

/// Kinds of rows read from the public API's lists.
#[derive(Debug, Clone, Copy, PartialEq, Eq, Structural)]
pub enum ListKind {
    /// Album search results.
    AlbumSearch,
    /// The user's favorite albums.
    FavoriteAlbums,
    /// The user's playlists.
    Playlists,
    /// The profiles the user follows.
    Following,
}

/// The row that an entry of a list of that kind gives.
pub open spec fn list_row(kind: ListKind, e: Json, d: DisplayItem) -> bool {
    &&& d.track is None
    &&& match kind {
        ListKind::AlbumSearch => {
            &&& d.col1@ == str_field(e, "title"@)
            &&& d.col2@ == nested_str_field(e, "artist"@, "name"@)
            &&& d.col3@ == Seq::<char>::empty()
            &&& d.col4@ == titres(u64_field(e, "nb_tracks"@))
            &&& opt_text(d.album_id) == id_field(e)
            &&& d.playlist_id is None && d.artist_id is None
        },
        ListKind::FavoriteAlbums => {
            &&& d.col1@ == str_field(e, "title"@)
            &&& d.col2@ == nested_str_field(e, "artist"@, "name"@)
            &&& d.col3@ == str_field(e, "release_date"@)
            &&& d.col4@ == titres(u64_field(e, "nb_tracks"@))
            &&& opt_text(d.album_id) == id_field(e)
            &&& d.playlist_id is None && d.artist_id is None
        },
        ListKind::Playlists => {
            &&& d.col1@ == str_field(e, "title"@)
            &&& d.col2@ == nested_str_field(e, "creator"@, "name"@)
            &&& d.col3@ == titres(u64_field(e, "nb_tracks"@))
            &&& d.col4@ == Seq::<char>::empty()
            &&& opt_text(d.playlist_id) == id_field(e)
            &&& d.album_id is None && d.artist_id is None
        },
        ListKind::Following => {
            &&& d.col1@ == str_field(e, "name"@)
            &&& d.col2@ == Seq::<char>::empty() && d.col3@ == Seq::<char>::empty() && d.col4@ == Seq::<char>::empty()
            &&& d.album_id is None && d.playlist_id is None && d.artist_id is None
        },
    }
}

fn list_row_of(kind: ListKind, e: &Json) -> (d: DisplayItem)
    ensures
        list_row(kind, *e, d),
{
    proof {
        reveal_strlit("title");
        reveal_strlit("artist");
        reveal_strlit("name");
        reveal_strlit("nb_tracks");
        reveal_strlit("release_date");
        reveal_strlit("creator");
        reveal_strlit("");
    }
    match kind {
        ListKind::AlbumSearch => DisplayItem {
            col1: text_of(get_str(e, "title")),
            col2: text_of(get_nested_str(e, "artist", "name")),
            col3: String::new(),
            col4: titres_text(get_u64(e, "nb_tracks")),
            track: None,
            album_id: get_id(e),
            playlist_id: None,
            artist_id: None,
        },
        ListKind::FavoriteAlbums => DisplayItem {
            col1: text_of(get_str(e, "title")),
            col2: text_of(get_nested_str(e, "artist", "name")),
            col3: text_of(get_str(e, "release_date")),
            col4: titres_text(get_u64(e, "nb_tracks")),
            track: None,
            album_id: get_id(e),
            playlist_id: None,
            artist_id: None,
        },
        ListKind::Playlists => DisplayItem {
            col1: text_of(get_str(e, "title")),
            col2: text_of(get_nested_str(e, "creator", "name")),
            col3: titres_text(get_u64(e, "nb_tracks")),
            col4: String::new(),
            track: None,
            album_id: None,
            playlist_id: get_id(e),
            artist_id: None,
        },
        ListKind::Following => DisplayItem {
            col1: text_of(get_str(e, "name")),
            col2: String::new(),
            col3: String::new(),
            col4: String::new(),
            track: None,
            album_id: None,
            playlist_id: None,
            artist_id: None,
        },
    }
}

/// The text of the error when a list of that kind has no `data` array.
pub open spec fn list_missing(kind: ListKind) -> Seq<char> {
    match kind {
        ListKind::AlbumSearch => "Missing 'data' in album search"@,
        ListKind::FavoriteAlbums => "Missing 'data' in favorite albums"@,
        ListKind::Playlists => "Missing 'data' in playlists"@,
        ListKind::Following => "Missing 'data' in following"@,
    }
}

/// The rows of a list answer: one per entry of its `data` array, or an
/// error when there is no such array.
pub fn list_rows(kind: ListKind, resp: &Json) -> (r: Result<Vec<DisplayItem>, DeezerError>)
    ensures
        json_array(json_get(*resp, "data"@)) is None ==> r is Err && is_api_error(r->Err_0, list_missing(kind)),
        json_array(json_get(*resp, "data"@)) is Some ==> r is Ok && ({
            let items = json_array(json_get(*resp, "data"@))->0;
            &&& r->Ok_0@.len() == items.len()
            &&& forall|i: int| 0 <= i < items.len() ==> list_row(kind, items[i], #[trigger] r->Ok_0@[i])
        }),
{
    proof { reveal_strlit("data"); }
    let missing = match kind {
        ListKind::AlbumSearch => "Missing 'data' in album search",
        ListKind::FavoriteAlbums => "Missing 'data' in favorite albums",
        ListKind::Playlists => "Missing 'data' in playlists",
        ListKind::Following => "Missing 'data' in following",
    };
    let items = match resp.get("data") {
        Some(d) => match d.as_array() {
            Some(items) => items,
            None => return Err(api_error(missing)),
        },
        None => return Err(api_error(missing)),
    };
    let mut rows: Vec<DisplayItem> = Vec::new();
    for i in 0..items.len()
        invariant
            rows@.len() == i,
            forall|k: int| 0 <= k < i ==> list_row(kind, items@[k], #[trigger] rows@[k]),
    {
        rows.push(list_row_of(kind, &items[i]));
    }
    Ok(rows)
}

/// A favorite artist of the public API.
#[derive(Debug)]
pub struct FavoriteArtist {
    pub artist_id: Option<String>,
    pub name: String,
    pub nb_fan: u64,
}

/// The favorite artist that an entry gives.
pub open spec fn favorite_artist_of(e: Json, a: FavoriteArtist) -> bool {
    &&& opt_text(a.artist_id) == id_field(e)
    &&& a.name@ == str_field(e, "name"@)
    &&& a.nb_fan == u64_field(e, "nb_fan"@)
}

/// The favorite artists of an answer; an error when there is no `data` array.
pub fn favorite_artists(resp: &Json) -> (r: Result<Vec<FavoriteArtist>, DeezerError>)
    ensures
        json_array(json_get(*resp, "data"@)) is None ==> r is Err
            && is_api_error(r->Err_0, "Missing 'data' in favorite artists"@),
        json_array(json_get(*resp, "data"@)) is Some ==> r is Ok && ({
            let items = json_array(json_get(*resp, "data"@))->0;
            &&& r->Ok_0@.len() == items.len()
            &&& forall|i: int| 0 <= i < items.len() ==> favorite_artist_of(items[i], #[trigger] r->Ok_0@[i])
        }),
{
    proof {
        reveal_strlit("data");
        reveal_strlit("name");
        reveal_strlit("nb_fan");
    }
    let items = match resp.get("data") {
        Some(d) => match d.as_array() {
            Some(items) => items,
            None => return Err(api_error("Missing 'data' in favorite artists")),
        },
        None => return Err(api_error("Missing 'data' in favorite artists")),
    };
    let mut r: Vec<FavoriteArtist> = Vec::new();
    for i in 0..items.len()
        invariant
            r@.len() == i,
            forall|k: int| 0 <= k < i ==> favorite_artist_of(items@[k], #[trigger] r@[k]),
    {
        let e = &items[i];
        r.push(FavoriteArtist { artist_id: get_id(e), name: text_of(get_str(e, "name")), nb_fan: get_u64(e, "nb_fan") });
    }
    Ok(r)
}

impl DisplayItem {
    /// The row of a favorite artist; `fans` is the rendered fan count.
    pub fn from_favorite_artist(a: &FavoriteArtist, fans: &str) -> (d: DisplayItem)
        ensures
            d.col1@ == a.name@,
            d.col2@ == fans@,
            d.col3@.len() == 0 && d.col4@.len() == 0,
            d.track is None && d.album_id is None && d.playlist_id is None,
            d.artist_id == a.artist_id,
    {
        DisplayItem {
            col1: a.name.clone(),
            col2: text_of(fans),
            col3: String::new(),
            col4: String::new(),
            track: None,
            album_id: None,
            playlist_id: None,
            artist_id: crate::models::clone_opt_string(&a.artist_id),
        }
    }
}

// ----- details of the public API -----

/// The error an answer reports: its `error.message`, or `default`.
pub open spec fn reported_error(resp: Json, default: Seq<char>) -> Option<Seq<char>> {
    match json_get(resp, "error"@) {
        Some(err) => Some(match json_str(json_get(err, "message"@)) {
            Some(m) => m,
            None => default,
        }),
        None => None,
    }
}

fn check_reported_error(resp: &Json, default: &str) -> (r: Result<(), DeezerError>)
    ensures
        reported_error(*resp, default@) is None ==> r is Ok,
        reported_error(*resp, default@) is Some ==> r is Err
            && is_api_error(r->Err_0, reported_error(*resp, default@)->0),
{
    proof {
        reveal_strlit("error");
        reveal_strlit("message");
    }
    match resp.get("error") {
        Some(err) => {
            let m = match err.get("message") {
                Some(x) => match x.as_str() {
                    Some(t) => t,
                    None => default,
                },
                None => default,
            };
            Err(api_error(m))
        }
        None => Ok(()),
    }
}

/// The first of two string fields that is present (even when it is not a
/// string, which then gives the empty text).
pub open spec fn first_present_str(v: Json, a: Seq<char>, b: Seq<char>) -> Seq<char> {
    match json_get(v, a) {
        Some(x) => match json_str(Some(x)) {
            Some(s) => s,
            None => seq![],
        },
        None => str_field(v, b),
    }
}

fn get_first_present_str<'a>(v: &'a Json, a: &str, b: &str) -> (r: &'a str)
    ensures
        r@ == first_present_str(*v, a@, b@),
{
    proof { reveal_strlit(""); }
    match v.get(a) {
        Some(x) => match x.as_str() {
            Some(s) => s,
            None => "",
        },
        None => get_str(v, b),
    }
}

/// The album of an answer, without its tracks (fetched separately from
/// `nested_track_ids`).
pub open spec fn album_detail_of(resp: Json, album_id: Seq<char>, d: AlbumDetail) -> bool {
    &&& d.album_id@ == album_id
    &&& d.title@ == str_field(resp, "title"@)
    &&& d.artist@ == nested_str_field(resp, "artist"@, "name"@)
    &&& d.nb_tracks == u64_field(resp, "nb_tracks"@)
    &&& d.release_date@ == str_field(resp, "release_date"@)
    &&& d.cover_url@ == first_present_str(resp, "cover_medium"@, "cover_small"@)
    &&& d.label@ == str_field(resp, "label"@)
    &&& d.tracks@.len() == 0
}

pub fn album_detail_from(resp: &Json, album_id: &str) -> (r: Result<AlbumDetail, DeezerError>)
    ensures
        reported_error(*resp, "Unknown album error"@) is Some ==> r is Err
            && is_api_error(r->Err_0, reported_error(*resp, "Unknown album error"@)->0),
        reported_error(*resp, "Unknown album error"@) is None ==> r is Ok && album_detail_of(*resp, album_id@, r->Ok_0),
{
    proof {
        reveal_strlit("title");
        reveal_strlit("artist");
        reveal_strlit("name");
        reveal_strlit("nb_tracks");
        reveal_strlit("release_date");
        reveal_strlit("cover_medium");
        reveal_strlit("cover_small");
        reveal_strlit("label");
    }
    if let Err(e) = check_reported_error(resp, "Unknown album error") {
        return Err(e);
    }
    Ok(AlbumDetail {
        album_id: text_of(album_id),
        title: text_of(get_str(resp, "title")),
        artist: text_of(get_nested_str(resp, "artist", "name")),
        nb_tracks: get_u64(resp, "nb_tracks"),
        release_date: text_of(get_str(resp, "release_date")),
        cover_url: text_of(get_first_present_str(resp, "cover_medium", "cover_small")),
        label: text_of(get_str(resp, "label")),
        tracks: Vec::new(),
    })
}

/// The playlist of an answer, without its tracks.
pub open spec fn playlist_detail_of(resp: Json, playlist_id: Seq<char>, d: PlaylistDetail) -> bool {
    &&& d.playlist_id@ == playlist_id
    &&& d.title@ == str_field(resp, "title"@)
    &&& d.creator@ == nested_str_field(resp, "creator"@, "name"@)
    &&& d.nb_tracks == u64_field(resp, "nb_tracks"@)
    &&& d.tracks@.len() == 0
}

pub fn playlist_detail_from(resp: &Json, playlist_id: &str) -> (r: Result<PlaylistDetail, DeezerError>)
    ensures
        reported_error(*resp, "Unknown playlist error"@) is Some ==> r is Err
            && is_api_error(r->Err_0, reported_error(*resp, "Unknown playlist error"@)->0),
        reported_error(*resp, "Unknown playlist error"@) is None ==> r is Ok
            && playlist_detail_of(*resp, playlist_id@, r->Ok_0),
{
    proof {
        reveal_strlit("title");
        reveal_strlit("creator");
        reveal_strlit("name");
        reveal_strlit("nb_tracks");
    }
    if let Err(e) = check_reported_error(resp, "Unknown playlist error") {
        return Err(e);
    }
    Ok(PlaylistDetail {
        playlist_id: text_of(playlist_id),
        title: text_of(get_str(resp, "title")),
        creator: text_of(get_nested_str(resp, "creator", "name")),
        nb_tracks: get_u64(resp, "nb_tracks"),
        tracks: Vec::new(),
    })
}

/// Name, fans and picture of an artist answer.
pub open spec fn artist_info_of(resp: Json, artist_id: Seq<char>, d: crate::models::ArtistDetail) -> bool {
    &&& d.artist_id@ == artist_id
    &&& d.name@ == str_field(resp, "name"@)
    &&& d.nb_fan == u64_field(resp, "nb_fan"@)
    &&& d.picture_url@ == first_present_str(resp, "picture_medium"@, "picture_small"@)
    &&& d.top_tracks@.len() == 0
    &&& d.albums@.len() == 0
    &&& d.similar_artists@.len() == 0
}

pub fn artist_detail_from(resp: &Json, artist_id: &str) -> (r: Result<crate::models::ArtistDetail, DeezerError>)
    ensures
        reported_error(*resp, "Unknown artist error"@) is Some ==> r is Err
            && is_api_error(r->Err_0, reported_error(*resp, "Unknown artist error"@)->0),
        reported_error(*resp, "Unknown artist error"@) is None ==> r is Ok
            && artist_info_of(*resp, artist_id@, r->Ok_0),
{
    proof {
        reveal_strlit("name");
        reveal_strlit("nb_fan");
        reveal_strlit("picture_medium");
        reveal_strlit("picture_small");
    }
    if let Err(e) = check_reported_error(resp, "Unknown artist error") {
        return Err(e);
    }
    Ok(crate::models::ArtistDetail {
        artist_id: text_of(artist_id),
        name: text_of(get_str(resp, "name")),
        nb_fan: get_u64(resp, "nb_fan"),
        picture_url: text_of(get_first_present_str(resp, "picture_medium", "picture_small")),
        top_tracks: Vec::new(),
        albums: Vec::new(),
        similar_artists: Vec::new(),
    })
}


// ----- an artist's albums, newest first -----

/// `a < b` in the order of `str::cmp` (character by character, by code).
pub open spec fn text_less(a: Seq<char>, b: Seq<char>) -> bool
    decreases a.len(),
{
    if a.len() == 0 {
        b.len() > 0
    } else if b.len() == 0 {
        false
    } else if a[0] != b[0] {
        (a[0] as u32) < (b[0] as u32)
    } else {
        text_less(a.drop_first(), b.drop_first())
    }
}

fn text_less_exec(a: &str, b: &str) -> (r: bool)
    ensures
        r == text_less(a@, b@),
{
    let x = crate::text::chars_of(a);
    let y = crate::text::chars_of(b);
    let mut i: usize = 0;
    assert(x@.skip(0) =~= x@);
    assert(y@.skip(0) =~= y@);
    loop
        invariant
            x@ == a@,
            y@ == b@,
            i <= x@.len(),
            i <= y@.len(),
            text_less(a@, b@) == text_less(x@.skip(i as int), y@.skip(i as int)),
        decreases x@.len() - i,
    {
        if i == x.len() {
            return i < y.len();
        }
        if i == y.len() {
            return false;
        }
        if x[i] != y[i] {
            return (x[i] as u32) < (y[i] as u32);
        }
        assert(x@.skip(i as int).drop_first() =~= x@.skip(i + 1));
        assert(y@.skip(i as int).drop_first() =~= y@.skip(i + 1));
        i += 1;
    }
}

/// Where a stable sort, newest first, puts an entry dated `d` among the
/// already sorted `t`: after every entry that is not older.
pub open spec fn insert_pos(t: Seq<ArtistAlbumEntry>, d: Seq<char>) -> int
    decreases t.len(),
{
    if t.len() == 0 {
        0
    } else if text_less(t[0].release_date@, d) {
        0
    } else {
        1 + insert_pos(t.drop_first(), d)
    }
}

/// `s` sorted by release date, newest first, keeping the order of equal
/// dates (`sort_by(|a, b| b.release_date.cmp(&a.release_date))`).
pub open spec fn sort_newest_first(s: Seq<ArtistAlbumEntry>) -> Seq<ArtistAlbumEntry>
    decreases s.len(),
{
    if s.len() == 0 {
        seq![]
    } else {
        let t = sort_newest_first(s.drop_last());
        t.insert(insert_pos(t, s.last().release_date@), s.last())
    }
}

proof fn lemma_insert_pos_bounds(t: Seq<ArtistAlbumEntry>, d: Seq<char>)
    ensures
        0 <= insert_pos(t, d) <= t.len(),
    decreases t.len(),
{
    if t.len() > 0 {
        lemma_insert_pos_bounds(t.drop_first(), d);
    }
}

proof fn lemma_sort_len(s: Seq<ArtistAlbumEntry>)
    ensures
        sort_newest_first(s).len() == s.len(),
    decreases s.len(),
{
    if s.len() > 0 {
        lemma_sort_len(s.drop_last());
        lemma_insert_pos_bounds(sort_newest_first(s.drop_last()), s.last().release_date@);
    }
}

fn find_insert_pos(t: &Vec<ArtistAlbumEntry>, d: &str) -> (p: usize)
    ensures
        p == insert_pos(t@, d@),
{
    let mut i: usize = 0;
    assert(t@.skip(0) =~= t@);
    while i < t.len() && !text_less_exec(t[i].release_date.as_str(), d)
        invariant
            i <= t@.len(),
            insert_pos(t@, d@) == i + insert_pos(t@.skip(i as int), d@),
        decreases t@.len() - i,
    {
        assert(t@.skip(i as int)[0] == t@[i as int]);
        assert(t@.skip(i as int).drop_first() =~= t@.skip(i + 1));
        i += 1;
    }
    if i < t.len() {
        assert(t@.skip(i as int)[0] == t@[i as int]);
    }
    i
}

/// Sort album entries by release date, newest first; entries of the same
/// date keep their order.
pub fn sort_newest_first_exec(v: Vec<ArtistAlbumEntry>) -> (r: Vec<ArtistAlbumEntry>)
    ensures
        r@ == sort_newest_first(v@),
{
    let ghost all = v@;
    let mut out: Vec<ArtistAlbumEntry> = Vec::new();
    for x in it: v.into_iter()
        invariant
            it.seq() == all,
            out@ == sort_newest_first(all.take(it.index() as int)),
    {
        proof {
            let i = it.index() as int;
            assert(all.take(i + 1).drop_last() =~= all.take(i));
            assert(all.take(i + 1).last() == all[i]);
            lemma_insert_pos_bounds(out@, all[i].release_date@);
        }
        let p = find_insert_pos(&out, x.release_date.as_str());
        out.insert(p, x);
    }
    assert(all.take(all.len() as int) =~= all);
    out
}

/// The album entry that an entry of an artist's albums answer gives.
pub open spec fn album_entry_of(e: Json, x: ArtistAlbumEntry) -> bool {
    &&& x.album_id@ == (match id_field(e) { Some(id) => id, None => Seq::<char>::empty() })
    &&& x.title@ == str_field(e, "title"@)
    &&& x.release_date@ == str_field(e, "release_date"@)
    &&& x.fans == u64_field(e, "fans"@)
    &&& x.record_type@ == (match json_str(json_get(e, "record_type"@)) { Some(t) => t, None => "album"@ })
    &&& x.cover_url@.len() == 0
}

/// `u` holds the album entries of `items`, in order.
pub open spec fn album_entries_of(items: Seq<Json>, u: Seq<ArtistAlbumEntry>) -> bool {
    u.len() == items.len() && forall|i: int| 0 <= i < items.len() ==> album_entry_of(items[i], #[trigger] u[i])
}

fn album_entry_from(e: &Json) -> (x: ArtistAlbumEntry)
    ensures
        album_entry_of(*e, x),
{
    proof {
        reveal_strlit("title");
        reveal_strlit("release_date");
        reveal_strlit("fans");
        reveal_strlit("record_type");
        reveal_strlit("album");
    }
    let record_type = match e.get("record_type") {
        Some(v) => match v.as_str() {
            Some(t) => text_of(t),
            None => text_of("album"),
        },
        None => text_of("album"),
    };
    ArtistAlbumEntry {
        album_id: match get_id(e) {
            Some(id) => id,
            None => String::new(),
        },
        title: text_of(get_str(e, "title")),
        release_date: text_of(get_str(e, "release_date")),
        fans: get_u64(e, "fans"),
        record_type,
        cover_url: String::new(),
    }
}

/// The albums of an artist's albums answer, newest first (none when there
/// is no `data` array).
pub fn artist_albums(resp: &Json) -> (r: Vec<ArtistAlbumEntry>)
    ensures
        json_array(json_get(*resp, "data"@)) is None ==> r@.len() == 0,
        json_array(json_get(*resp, "data"@)) is Some ==> exists|u: Seq<ArtistAlbumEntry>|
            #[trigger] album_entries_of(json_array(json_get(*resp, "data"@))->0, u) && r@ == sort_newest_first(u),
{
    proof { reveal_strlit("data"); }
    let items = match resp.get("data") {
        Some(d) => match d.as_array() {
            Some(items) => items,
            None => return Vec::new(),
        },
        None => return Vec::new(),
    };
    let mut entries: Vec<ArtistAlbumEntry> = Vec::new();
    for i in 0..items.len()
        invariant
            entries@.len() == i,
            forall|k: int| 0 <= k < i ==> album_entry_of(items@[k], #[trigger] entries@[k]),
    {
        entries.push(album_entry_from(&items[i]));
    }
    let ghost u = entries@;
    assert(album_entries_of(items@, u));
    sort_newest_first_exec(entries)
}

} // verus!
