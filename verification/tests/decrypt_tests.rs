use deezer_tui::decrypt::{
    derive_track_key, parse_half, decrypt_stream, decrypt_track, key_from_halves, master_key_from_js,
    find_app_web_url, split_chars,
};
use deezer_tui::models::DeezerError;

#[test]
fn test_derive_track_key() {
    let master_key = b"g4el58wc0zvf9na1";
    let key = derive_track_key("123456", master_key);
    assert_eq!(key.len(), 16);
    assert_eq!(key, derive_track_key("123456", master_key));
    assert_ne!(key, derive_track_key("654321", master_key));
}

#[test]
fn derive_track_key_known_value() {
    // md5("123456") = e10adc3949ba59abbe56e057f20f883e
    let key = derive_track_key("123456", b"g4el58wc0zvf9na1");
    assert_eq!(key, [96, 96, 96, 59, 52, 107, 113, 109, 98, 113, 36, 97, 52, 111, 51, 54]);
}

#[test]
fn test_parse_half() {
    let input = "0x61%2C0x32%2C0x33%2C0x34%2C0x35%2C0x36%2C0x37%2C0x67";
    let result = parse_half(input).unwrap();
    assert_eq!(result, vec![0x67, 0x37, 0x36, 0x35, 0x34, 0x33, 0x32, 0x61]);
}

#[test]
fn parse_half_wrong_length() {
    match parse_half("0x61%2C0x32") {
        Err(DeezerError::Decrypt(m)) => assert_eq!(m, "Expected 8 bytes in key half, got 2"),
        other => panic!("unexpected {other:?}"),
    }
    match parse_half("0x61%2Czz%2C0x32") {
        Err(DeezerError::Decrypt(m)) => assert_eq!(m, "Expected 8 bytes in key half, got 2"),
        other => panic!("unexpected {other:?}"),
    }
}

#[test]
fn splitting_keeps_empty_pieces() {
    let v: Vec<char> = "a%2C%2Cb%2C".chars().collect();
    let sep: Vec<char> = "%2C".chars().collect();
    let parts: Vec<String> = split_chars(&v, &sep).into_iter().map(|p| p.into_iter().collect()).collect();
    assert_eq!(parts, vec!["a", "", "b", ""]);
}

const HALF_A: &str = "0x61%2C0x39%2C0x76%2C0x30%2C0x77%2C0x35%2C0x65%2C0x67";
const HALF_B: &str = "0x31%2C0x6e%2C0x66%2C0x7a%2C0x63%2C0x38%2C0x6c%2C0x34";

#[test]
fn master_key_from_matching_halves() {
    let key = key_from_halves(HALF_A, HALF_B).unwrap();
    assert_eq!(&key, b"g4el58wc0zvf9na1");
}

#[test]
fn master_key_md5_mismatch() {
    let other_b = "0x31%2C0x6e%2C0x66%2C0x7a%2C0x63%2C0x38%2C0x6d%2C0x34";
    match key_from_halves(HALF_A, other_b) {
        Err(DeezerError::Decrypt(m)) => {
            assert!(m.starts_with("Master key MD5 mismatch: expected 7ebf40da848f4a0fb3cc56ddbe6c2d09, got "));
            assert_eq!(m.len(), "Master key MD5 mismatch: expected 7ebf40da848f4a0fb3cc56ddbe6c2d09, got ".len() + 32);
        }
        other => panic!("unexpected {other:?}"),
    }
}

#[test]
fn master_key_from_javascript() {
    let js = format!("var x=[{HALF_A}];function f(){{return \"{HALF_B}\"}}");
    assert_eq!(&master_key_from_js(&js).unwrap(), b"g4el58wc0zvf9na1");
    match master_key_from_js("nothing here") {
        Err(DeezerError::Decrypt(m)) => assert_eq!(m, "Could not find first half of master key"),
        other => panic!("unexpected {other:?}"),
    }
    match master_key_from_js(HALF_A) {
        Err(DeezerError::Decrypt(m)) => assert_eq!(m, "Could not find second half of master key"),
        other => panic!("unexpected {other:?}"),
    }
}

#[test]
fn app_web_url_in_html() {
    let html = r#"<script src="https://cdn-files.dzcdn.net/cache/js/app-web.abc123.js"></script>"#;
    assert_eq!(find_app_web_url(html).unwrap(), "https://cdn-files.dzcdn.net/cache/js/app-web.abc123.js");
    match find_app_web_url("<html></html>") {
        Err(DeezerError::Decrypt(m)) => assert_eq!(m, "Could not find app-web JS bundle URL"),
        other => panic!("unexpected {other:?}"),
    }
}

#[test]
fn stripes_only_every_third_full_block() {
    let key = derive_track_key("3135556", b"g4el58wc0zvf9na1");
    let original: Vec<u8> = (0..(4 * 2048 + 100)).map(|i| (i % 251) as u8).collect();
    let mut data = original.clone();
    decrypt_stream(&mut data, &key).unwrap();
    assert_ne!(&data[0..2048], &original[0..2048]);
    assert_eq!(&data[2048..3 * 2048], &original[2048..3 * 2048]);
    assert_ne!(&data[3 * 2048..4 * 2048], &original[3 * 2048..4 * 2048]);
    assert_eq!(&data[4 * 2048..], &original[4 * 2048..]);
    // Equal encrypted blocks decrypt alike: the IV restarts at every stripe.
    let mut twice = vec![7u8; 4 * 2048];
    decrypt_stream(&mut twice, &key).unwrap();
    assert_eq!(&twice[0..2048], &twice[3 * 2048..4 * 2048]);
}

#[test]
fn short_buffers_stay_as_they_are() {
    let key = [1u8; 16];
    let mut data = vec![9u8; 2047];
    decrypt_stream(&mut data, &key).unwrap();
    assert_eq!(data, vec![9u8; 2047]);
    let mut same = vec![5u8; 2048];
    let mut via_track = same.clone();
    decrypt_stream(&mut same, &derive_track_key("42", b"g4el58wc0zvf9na1")).unwrap();
    decrypt_track(&mut via_track, "42", b"g4el58wc0zvf9na1").unwrap();
    assert_eq!(same, via_track);
}
