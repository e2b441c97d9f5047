use deezer_tui::gateway::{
    album_detail_from, artist_albums, gw_results, gw_url, list_rows, media_payload, radio_track_ids,
    stream_plan, stream_step, stream_url, ListKind, Session, StreamStep, session_from_user_data, favorite_artists,
    song_ids_as_numbers,
};
use deezer_tui::json::{Json, JsonNumber};
use deezer_tui::models::{AudioQuality, DeezerError, TrackData, UserData, UserInfo, UserOptions};

fn s(x: &str) -> Json {
    Json::Str(x.to_string())
}
fn n(x: u64) -> Json {
    Json::Number(JsonNumber::PosInt(x))
}
fn obj(entries: Vec<(&str, Json)>) -> Json {
    Json::Object(entries.into_iter().map(|(k, v)| (k.to_string(), v)).collect())
}

#[test]
fn gateway_errors_and_results() {
    let ok = obj(vec![("error", Json::Array(vec![])), ("results", n(5))]);
    assert!(matches!(gw_results(&ok, "[]"), Ok(Json::Number(JsonNumber::PosInt(5)))));
    let empty_error = obj(vec![("error", obj(vec![])), ("results", n(1))]);
    assert!(gw_results(&empty_error, "{}").is_ok());
    let err = obj(vec![("error", obj(vec![("VALID_TOKEN_REQUIRED", s("Invalid CSRF token"))]))]);
    match gw_results(&err, "{\"VALID_TOKEN_REQUIRED\":\"Invalid CSRF token\"}") {
        Err(DeezerError::Api(m)) => assert_eq!(m, "{\"VALID_TOKEN_REQUIRED\":\"Invalid CSRF token\"}"),
        other => panic!("unexpected {other:?}"),
    }
    match gw_results(&obj(vec![]), "") {
        Err(DeezerError::Api(m)) => assert_eq!(m, "Missing 'results' in response"),
        other => panic!("unexpected {other:?}"),
    }
    assert_eq!(
        gw_url("song.getData", "tok"),
        "https://www.deezer.com/ajax/gw-light.php?method=song.getData&input=3&api_version=1.0&api_token=tok"
    );
}

#[test]
fn album_search_rows() {
    let resp = obj(vec![("data", Json::Array(vec![
        obj(vec![("id", n(302127)), ("title", s("Discovery")), ("artist", obj(vec![("name", s("Daft Punk"))])), ("nb_tracks", n(14))]),
        obj(vec![("title", s("No id"))]),
    ]))]);
    let rows = list_rows(ListKind::AlbumSearch, &resp).unwrap();
    assert_eq!(rows.len(), 2);
    assert_eq!(rows[0].col1, "Discovery");
    assert_eq!(rows[0].col2, "Daft Punk");
    assert_eq!(rows[0].col4, "14 titres");
    assert_eq!(rows[0].album_id.as_deref(), Some("302127"));
    assert_eq!(rows[1].album_id, None);
    assert_eq!(rows[1].col4, "0 titres");
    match list_rows(ListKind::Following, &obj(vec![])) {
        Err(DeezerError::Api(m)) => assert_eq!(m, "Missing 'data' in following"),
        other => panic!("unexpected {other:?}"),
    }
}

#[test]
fn favorite_artist_entries() {
    let resp = obj(vec![("data", Json::Array(vec![obj(vec![("id", n(27)), ("name", s("Daft Punk")), ("nb_fan", n(4_500_000))])]))]);
    let a = favorite_artists(&resp).unwrap();
    assert_eq!(a[0].artist_id.as_deref(), Some("27"));
    assert_eq!(a[0].nb_fan, 4_500_000);
}

#[test]
fn album_details_and_errors() {
    let resp = obj(vec![
        ("title", s("Discovery")),
        ("cover_small", s("small.jpg")),
        ("tracks", obj(vec![("data", Json::Array(vec![obj(vec![("id", n(3135556))]), obj(vec![("id", s("x"))])]))])),
    ]);
    let d = album_detail_from(&resp, "302127").unwrap();
    assert_eq!(d.album_id, "302127");
    assert_eq!(d.title, "Discovery");
    assert_eq!(d.cover_url, "small.jpg");
    assert_eq!(d.nb_tracks, 0);
    let ids = deezer_tui::gateway::tracks_data_ids(&resp);
    assert_eq!(ids, vec!["3135556".to_string()]);
    let err = obj(vec![("error", obj(vec![("type", s("DataException"))]))]);
    match album_detail_from(&err, "1") {
        Err(DeezerError::Api(m)) => assert_eq!(m, "Unknown album error"),
        other => panic!("unexpected {other:?}"),
    }
}

#[test]
fn artist_albums_newest_first_and_stable() {
    let entry = |id: u64, date: &str| obj(vec![("id", n(id)), ("title", s("t")), ("release_date", s(date))]);
    let resp = obj(vec![("data", Json::Array(vec![
        entry(1, "2001-03-12"), entry(2, "2013-05-17"), entry(3, "2001-03-12"), entry(4, "1997-01-20"),
    ]))]);
    let albums = artist_albums(&resp);
    let ids: Vec<&str> = albums.iter().map(|a| a.album_id.as_str()).collect();
    assert_eq!(ids, vec!["2", "1", "3", "4"]);
    assert_eq!(albums[0].record_type, "album");
    assert!(artist_albums(&obj(vec![])).is_empty());
}

#[test]
fn radio_tracks_need_data() {
    let resp = obj(vec![("data", Json::Array(vec![obj(vec![("id", n(9))])]))]);
    assert_eq!(radio_track_ids(&resp).unwrap(), vec!["9".to_string()]);
    match radio_track_ids(&obj(vec![("data", s("nope"))])) {
        Err(DeezerError::Api(m)) => assert_eq!(m, "Missing 'data' in radio tracks response"),
        other => panic!("unexpected {other:?}"),
    }
}

fn track(id: &str) -> TrackData {
    TrackData {
        track_id: id.to_string(), title: String::new(), artist: String::new(), artist_id: None,
        album: String::new(), duration: String::new(), album_picture: String::new(), album_id: None,
        track_token: Some("tok".to_string()), md5_origin: String::new(), fallback: None,
    }
}

#[test]
fn stream_formats_to_try() {
    let plan = stream_plan(&track("3135556"), AudioQuality::Mp3_320);
    let formats: Vec<&str> = plan.iter().map(|(_, f)| *f).collect();
    assert_eq!(formats, vec!["MP3_320", "MP3_128", "MP3_64", "FLAC"]);
    let upload = stream_plan(&track("-17"), AudioQuality::Flac);
    assert_eq!(upload, vec![(AudioQuality::Mp3_128, "MP3_MISC")]);
}

#[test]
fn stream_url_from_media_answer() {
    let body = obj(vec![("data", Json::Array(vec![obj(vec![("media", Json::Array(vec![obj(vec![
        ("sources", Json::Array(vec![obj(vec![("url", s("https://cdn/x.mp3")), ("provider", s("ak"))])])),
    ])]))])]))]);
    assert_eq!(stream_url(&body).as_deref(), Some("https://cdn/x.mp3"));
    assert_eq!(stream_url(&obj(vec![("data", Json::Array(vec![]))])), None);
    let payload = media_payload("lic", "MP3_128", "tok");
    let field = |j: &Json, k: &str| j.get(k).and_then(|v| v.as_str()).map(String::from);
    assert_eq!(field(&payload, "license_token").as_deref(), Some("lic"));
    let media = payload.get("media").and_then(|m| m.at(0)).unwrap();
    assert_eq!(field(media, "type").as_deref(), Some("FULL"));
    let format = media.get("formats").and_then(|f| f.at(0)).unwrap();
    assert_eq!(field(format, "cipher").as_deref(), Some("BF_CBC_STRIPE"));
    assert_eq!(field(format, "format").as_deref(), Some("MP3_128"));
    assert_eq!(payload.get("track_tokens").and_then(|t| t.at(0)).and_then(|t| t.as_str()), Some("tok"));
    assert_eq!(payload.get("track_tokens").and_then(|t| t.as_array()).map(|t| t.len()), Some(1));
}

#[test]
fn session_needs_a_user() {
    let data = |id: u64| UserData {
        user: UserInfo {
            user_id: id,
            user_name: "me".to_string(),
            options: UserOptions {
                license_token: "lic".to_string(), web_streaming: true, web_hq: true, web_lossless: false,
                mobile_offline: false, license_country: "FR".to_string(), expiration_timestamp: 0,
            },
        },
        api_token: "api".to_string(),
        offer: None,
    };
    let s = session_from_user_data(data(5)).unwrap();
    assert_eq!((s.user_id, s.api_token.as_str(), s.license_token.as_str()), (5, "api", "lic"));
    match session_from_user_data(data(0)) {
        Err(DeezerError::Auth(m)) => assert_eq!(m, "Invalid ARL token — user_id is 0"),
        other => panic!("unexpected {other:?}"),
    }
    assert_eq!(song_ids_as_numbers(&vec!["12".to_string(), "x".to_string(), "7".to_string()]), vec![12, 7]);
}

#[test]
fn stream_plan_tries_mp3_320_before_flac() {
    let plan = stream_plan(&track("3135556"), AudioQuality::Mp3_128);
    let formats: Vec<&str> = plan.iter().map(|(_, f)| *f).collect();
    assert_eq!(formats, vec!["MP3_128", "MP3_64", "MP3_320", "FLAC"]);
}

fn session() -> Option<Session> {
    Some(Session { api_token: "api".to_string(), license_token: "lic".to_string(), user_id: 1, user_name: "me".to_string() })
}

fn requested_format(step: &StreamStep) -> Option<(AudioQuality, String)> {
    match step {
        StreamStep::Request { quality, payload } => {
            let f = payload.get("media").and_then(|m| m.at(0)).and_then(|m| m.get("formats")).and_then(|f| f.at(0));
            let f = f.and_then(|f| f.get("format")).and_then(|f| f.as_str()).unwrap().to_string();
            assert_eq!(payload.get("license_token").and_then(|l| l.as_str()), Some("lic"));
            assert_eq!(payload.get("track_tokens").and_then(|t| t.at(0)).and_then(|t| t.as_str()), Some("tok"));
            Some((*quality, f))
        }
        _ => None,
    }
}

#[test]
fn stream_search_needs_a_session_and_a_token() {
    let t = track("3135556");
    match stream_step(&None, &t, AudioQuality::Mp3_128, &vec![]) {
        StreamStep::Failed(DeezerError::Auth(m)) => assert_eq!(m, "Not authenticated"),
        other => panic!("unexpected {other:?}"),
    }
    let mut no_token = track("3135556");
    no_token.track_token = None;
    match stream_step(&session(), &no_token, AudioQuality::Mp3_128, &vec![]) {
        StreamStep::Failed(DeezerError::TrackUnavailable(m)) => assert_eq!(m, "Missing TRACK_TOKEN"),
        other => panic!("unexpected {other:?}"),
    }
}

#[test]
fn stream_search_walks_the_plan_until_a_url() {
    let t = track("3135556");
    let q = AudioQuality::Mp3_128;
    let first = stream_step(&session(), &t, q, &vec![]);
    assert_eq!(requested_format(&first), Some((AudioQuality::Mp3_128, "MP3_128".to_string())));
    let second = stream_step(&session(), &t, q, &vec![None]);
    assert_eq!(requested_format(&second), Some((AudioQuality::Mp3_64, "MP3_64".to_string())));
    let third = stream_step(&session(), &t, q, &vec![None, None]);
    assert_eq!(requested_format(&third), Some((AudioQuality::Mp3_320, "MP3_320".to_string())));
    match stream_step(&session(), &t, q, &vec![None, None, Some("https://cdn/a".to_string())]) {
        StreamStep::Found { url, quality } => {
            assert_eq!(url, "https://cdn/a");
            assert_eq!(quality, AudioQuality::Mp3_320);
        }
        other => panic!("unexpected {other:?}"),
    }
    assert!(matches!(
        stream_step(&session(), &t, q, &vec![None, None, None, None]),
        StreamStep::Failed(DeezerError::QualityUnavailable)
    ));
}

#[test]
fn uploaded_tracks_are_only_asked_as_mp3_misc() {
    let t = track("-17");
    let first = stream_step(&session(), &t, AudioQuality::Flac, &vec![]);
    assert_eq!(requested_format(&first), Some((AudioQuality::Mp3_128, "MP3_MISC".to_string())));
    assert!(matches!(
        stream_step(&session(), &t, AudioQuality::Flac, &vec![None]),
        StreamStep::Failed(DeezerError::QualityUnavailable)
    ));
}
