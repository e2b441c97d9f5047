//! Deezer stream decryption: the master key hidden in the web player's
//! JavaScript, the per-track Blowfish key, and the striped CBC decryption.

use vstd::prelude::*;
use blowfish::cipher::block_padding::NoPadding;
use blowfish::cipher::generic_array::GenericArray;
use blowfish::cipher::{BlockDecryptMut, InnerIvInit, KeyInit};
use md5::Digest;
use crate::models::DeezerError;
use vstd::string::StringSliceAdditionalSpecFns;
use crate::text::{chars_of, push_all, push_dec, dec, parse_hex_u8, parse_hex_u8_spec};

verus! {

/// Size of each audio block (2 KB).
pub const BLOCK_SIZE: usize = 2048;

/// The lower-case hexadecimal MD5 that the master key must have.
pub const MASTER_KEY_MD5: &'static str = "7ebf40da848f4a0fb3cc56ddbe6c2d09";

/// Pattern of the URL of the web player's `app-web` bundle.
pub const APP_WEB_PATTERN: &'static str = r#"https://[^"]+/app-web[^"]*\.js"#;

/// Pattern of the first half of the master key: `0x61`, six bytes, `0x67`.
pub const HALF_A_PATTERN: &'static str = r"0x61%2C(0x[0-9a-f]{2}%2C){6}0x67";

/// Pattern of the second half of the master key: `0x31`, six bytes, `0x34`.
pub const HALF_B_PATTERN: &'static str = r"0x31%2C(0x[0-9a-f]{2}%2C){6}0x34";

/// The fixed IV of the CBC stripes.
pub open spec fn stripe_iv() -> Seq<u8> {
    seq![0u8, 1u8, 2u8, 3u8, 4u8, 5u8, 6u8, 7u8]
}

// ----- outside functions -----

/// The 16-byte MD5 digest of `data` (`md5::Md5::digest`).
pub uninterp spec fn md5_digest(data: Seq<u8>) -> Seq<u8>;

/// The text of the leftmost-first match of `pattern` in `haystack`, as
/// `regex::Regex::find` returns it (`None` also when the pattern does not
/// compile).
pub uninterp spec fn regex_find(pattern: Seq<char>, haystack: Seq<char>) -> Option<Seq<char>>;

/// `ciphertext` decrypted with Blowfish in CBC mode under `key` and `iv`,
/// without padding (`cbc::Decryptor<blowfish::Blowfish>`).
pub uninterp spec fn blowfish_cbc_decrypt(key: Seq<u8>, iv: Seq<u8>, ciphertext: Seq<u8>) -> Seq<u8>;

/// MD5 of `data`, by `md5::Md5::digest`. Claims only that the result is the
/// digest of these bytes.
#[verifier::external_body]
fn md5_of(data: &[u8]) -> (r: [u8; 16])
    ensures
        r@ == md5_digest(data@),
{
    let d = md5::Md5::digest(data);
    let mut r = [0u8; 16];
    r.copy_from_slice(d.as_slice());
    r
}

/// The first match of `pattern` in `haystack`, by `regex::Regex::new` and
/// `Regex::find`. Claims only that the result is the named match.
#[verifier::external_body]
fn regex_first(pattern: &str, haystack: &str) -> (r: Option<String>)
    ensures
        r.is_some() == regex_find(pattern@, haystack@).is_some(),
        r.is_some() ==> r->0@ == regex_find(pattern@, haystack@)->0,
{
    match regex::Regex::new(pattern) {
        Ok(re) => re.find(haystack).map(|m| m.as_str().to_string()),
        Err(_) => None,
    }
}

/// Blowfish-CBC decryption of `data[start..start + len]` in place, by
/// `blowfish::Blowfish::new_from_slice`, `cbc::Decryptor::inner_iv_init` and
/// `decrypt_padded_mut::<NoPadding>`. A 16-byte key is always accepted and a
/// length that is a multiple of 8 always decrypts, so no error is left;
/// the bytes outside the range stay as they were.
#[verifier::external_body]
fn blowfish_cbc_in_place(key: &[u8; 16], iv: &[u8; 8], data: &mut [u8], start: usize, len: usize)
    requires
        start + len <= old(data)@.len(),
        len % 8 == 0,
    ensures
        final(data)@.len() == old(data)@.len(),
        final(data)@.subrange(start as int, start + len)
            == blowfish_cbc_decrypt(key@, iv@, old(data)@.subrange(start as int, start + len)),
        forall|i: int| 0 <= i < old(data)@.len() && !(start <= i < start + len)
            ==> #[trigger] final(data)@[i] == old(data)@[i],
{
    if let Ok(bf) = blowfish::Blowfish::new_from_slice(key) {
        let cipher = cbc::Decryptor::<blowfish::Blowfish>::inner_iv_init(bf, GenericArray::from_slice(iv));
        let _ = cipher.decrypt_padded_mut::<NoPadding>(&mut data[start..start + len]);
    }
}

// ----- splitting on a separator -----

/// `sep` occurs in `s` at `i`.
pub open spec fn occurs_at(s: Seq<char>, sep: Seq<char>, i: int) -> bool {
    0 <= i && i + sep.len() <= s.len() && s.subrange(i, i + sep.len()) == sep
}

/// The pieces of `s` between occurrences of `sep`, looking for the next
/// occurrence from `i` on (`str::split` with `i == 0`).
pub open spec fn split_from(s: Seq<char>, sep: Seq<char>, i: int) -> Seq<Seq<char>>
    decreases s.len(), s.len() - i,
{
    if sep.len() == 0 || i < 0 || i + sep.len() > s.len() {
        seq![s]
    } else if occurs_at(s, sep, i) {
        seq![s.take(i)] + split_from(s.skip(i + sep.len()), sep, 0)
    } else {
        split_from(s, sep, i + 1)
    }
}

/// `s.split(sep)` for a non-empty separator.
pub open spec fn split_on(s: Seq<char>, sep: Seq<char>) -> Seq<Seq<char>> {
    split_from(s, sep, 0)
}

/// The views of a vector of character vectors.
pub open spec fn char_views(v: Seq<Vec<char>>) -> Seq<Seq<char>> {
    Seq::new(v.len(), |k: int| v[k]@)
}

pub(crate) fn occurs_at_exec(v: &Vec<char>, sep: &Vec<char>, i: usize) -> (b: bool)
    requires
        i + sep@.len() <= v@.len(),
    ensures
        b == occurs_at(v@, sep@, i as int),
{
    let n = v.len();
    let mut k: usize = 0;
    while k < sep.len()
        invariant
            n == v@.len(),
            i + sep@.len() <= v@.len(),
            k <= sep@.len(),
            forall|m: int| 0 <= m < k ==> v@[i + m] == sep@[m],
        decreases sep@.len() - k,
    {
        if v[i + k] != sep[k] {
            assert(v@.subrange(i as int, i + sep@.len())[k as int] != sep@[k as int]);
            return false;
        }
        k += 1;
    }
    assert(v@.subrange(i as int, i + sep@.len()) =~= sep@);
    true
}

pub(crate) fn subvec(v: &Vec<char>, from: usize, to: usize) -> (r: Vec<char>)
    requires
        from <= to <= v@.len(),
    ensures
        r@ == v@.subrange(from as int, to as int),
{
    let mut r: Vec<char> = Vec::new();
    let mut k = from;
    while k < to
        invariant
            from <= k <= to <= v@.len(),
            r@ == v@.subrange(from as int, k as int),
        decreases to - k,
    {
        r.push(v[k]);
        assert(v@.subrange(from as int, k + 1) == v@.subrange(from as int, k as int).push(v@[k as int]));
        k += 1;
    }
    r
}

/// The pieces of `v` between occurrences of the non-empty `sep`.
pub fn split_chars(v: &Vec<char>, sep: &Vec<char>) -> (r: Vec<Vec<char>>)
    requires
        sep@.len() > 0,
    ensures
        char_views(r@) == split_on(v@, sep@),
{
    let mut parts: Vec<Vec<char>> = Vec::new();
    let mut start: usize = 0;
    let mut i: usize = 0;
    proof {
        assert(v@.skip(0) =~= v@);
        assert(char_views(parts@) =~= Seq::<Seq<char>>::empty());
        assert(Seq::<Seq<char>>::empty() + split_on(v@, sep@) =~= split_on(v@, sep@));
    }
    while sep.len() <= v.len() - i
        invariant
            sep@.len() > 0,
            start <= i <= v@.len(),
            char_views(parts@) + split_from(v@.skip(start as int), sep@, i - start) == split_on(v@, sep@),
        decreases v@.len() - i,
    {
        let ghost t = v@.skip(start as int);
        let ghost j = i - start;
        assert(t.subrange(j, j + sep@.len()) =~= v@.subrange(i as int, i + sep@.len()));
        if occurs_at_exec(v, sep, i) {
            let piece = subvec(v, start, i);
            proof {
                assert(piece@ =~= t.take(j));
                assert(t.skip(j + sep@.len()) =~= v@.skip(i + sep@.len()));
                assert(char_views(parts@.push(piece)) =~= char_views(parts@).push(piece@));
                assert(split_from(t, sep@, j) == seq![t.take(j)] + split_from(t.skip(j + sep@.len()), sep@, 0));
                assert(char_views(parts@).push(piece@) + split_from(v@.skip(i + sep@.len()), sep@, 0)
                    =~= char_views(parts@) + (seq![t.take(j)] + split_from(t.skip(j + sep@.len()), sep@, 0)));
            }
            parts.push(piece);
            i = i + sep.len();
            start = i;
        } else {
            i = i + 1;
        }
    }
    let last = subvec(v, start, v.len());
    proof {
        let t = v@.skip(start as int);
        assert(last@ =~= t);
        assert(split_from(t, sep@, i - start) == seq![t]);
        assert(char_views(parts@.push(last)) =~= char_views(parts@) + seq![t]);
    }
    parts.push(last);
    parts
}

// ----- the key halves -----

/// `s.trim_start_matches(p)`: `s` without every leading repetition of `p`.
pub open spec fn strip_all_prefix(s: Seq<char>, p: Seq<char>) -> Seq<char>
    decreases s.len(),
{
    if p.len() > 0 && p.len() <= s.len() && s.take(p.len() as int) == p {
        strip_all_prefix(s.skip(p.len() as int), p)
    } else {
        s
    }
}

/// The byte a piece of a key half stands for, if it is one.
pub open spec fn piece_byte(piece: Seq<char>) -> Option<u8> {
    parse_hex_u8_spec(strip_all_prefix(piece, seq!['0', 'x']))
}

/// The bytes of the pieces, last piece first, skipping pieces that are not
/// bytes.
pub open spec fn bytes_last_first(pieces: Seq<Seq<char>>) -> Seq<u8>
    decreases pieces.len(),
{
    if pieces.len() == 0 {
        seq![]
    } else {
        let rest = bytes_last_first(pieces.drop_first());
        match piece_byte(pieces[0]) {
            Some(b) => rest.push(b),
            None => rest,
        }
    }
}

/// The bytes of a URL-encoded key half such as `0x61%2C0x32%2C...%2C0x67`,
/// in reverse order.
pub open spec fn half_bytes(half: Seq<char>) -> Seq<u8> {
    bytes_last_first(split_on(half, seq!['%', '2', 'C']))
}

fn strip_0x(v: &Vec<char>) -> (r: Vec<char>)
    ensures
        r@ == strip_all_prefix(v@, seq!['0', 'x']),
{
    let mut k: usize = 0;
    assert(v@.skip(0) =~= v@);
    while v.len() - k >= 2 && v[k] == '0' && v[k + 1] == 'x'
        invariant
            k <= v@.len(),
            strip_all_prefix(v@.skip(k as int), seq!['0', 'x']) == strip_all_prefix(v@, seq!['0', 'x']),
        decreases v@.len() - k,
    {
        proof {
            let t = v@.skip(k as int);
            assert(t.take(2) =~= seq!['0', 'x']);
            assert(t.skip(2) =~= v@.skip(k + 2));
        }
        k += 2;
    }
    proof {
        let t = v@.skip(k as int);
        if 2 <= t.len() && t.take(2) == seq!['0', 'x'] {
            assert(t.take(2)[0] == '0' && t.take(2)[1] == 'x');
            assert(false);
        }
    }
    let r = subvec(v, k, v.len());
    assert(r@ =~= v@.skip(k as int));
    r
}

/// The text "Expected 8 bytes in key half, got {n}".
pub open spec fn half_length_message(n: nat) -> Seq<char> {
    "Expected 8 bytes in key half, got "@ + dec(n)
}

/// Parse a URL-encoded hex array like `0x61%2C0xAA%2C...%2C0x67` into its
/// eight bytes, reversed.
pub fn parse_half(half: &str) -> (r: Result<Vec<u8>, DeezerError>)
    ensures
        half_bytes(half@).len() == 8 ==> r is Ok && r->Ok_0@ == half_bytes(half@),
        half_bytes(half@).len() != 8 ==> r is Err && r->Err_0 is Decrypt
            && r->Err_0->Decrypt_0@ == half_length_message(half_bytes(half@).len()),
{
    let v = chars_of(half);
    let mut sep: Vec<char> = Vec::new();
    sep.push('%');
    sep.push('2');
    sep.push('C');
    assert(sep@ =~= seq!['%', '2', 'C']);
    let pieces = split_chars(&v, &sep);
    let ghost views = char_views(pieces@);
    let mut bytes: Vec<u8> = Vec::new();
    let mut m = pieces.len();
    while m > 0
        invariant
            m <= pieces@.len(),
            views == char_views(pieces@),
            bytes@ == bytes_last_first(views.skip(m as int)),
        decreases m,
    {
        m -= 1;
        let stripped = strip_0x(&pieces[m]);
        let b = parse_hex_u8(stripped.as_slice());
        proof {
            assert(views.skip(m as int).drop_first() =~= views.skip(m + 1));
            assert(views.skip(m as int)[0] == pieces@[m as int]@);
        }
        if let Some(x) = b {
            bytes.push(x);
        }
    }
    assert(views.skip(0) =~= views);
    if bytes.len() != 8 {
        let mut msg = String::new();
        push_all(&mut msg, "Expected 8 bytes in key half, got ");
        push_dec(&mut msg, bytes.len() as u64);
        proof { reveal_strlit("Expected 8 bytes in key half, got "); }
        return Err(DeezerError::Decrypt(msg));
    }
    Ok(bytes)
}

// ----- the master key -----

/// The 16-byte key that interleaves two halves: `a[0], b[0], a[1], b[1], ...`.
pub open spec fn interleave(a: Seq<u8>, b: Seq<u8>) -> Seq<u8> {
    Seq::new(16, |i: int| if i % 2 == 0 { a[i / 2] } else { b[i / 2] })
}

/// The lower-case hexadecimal MD5 of `key`.
pub open spec fn md5_hex(key: Seq<u8>) -> Seq<char> {
    crate::text::hex_lower(md5_digest(key))
}

/// The text "Master key MD5 mismatch: expected {expected}, got {hash}".
pub open spec fn md5_mismatch_message(hash: Seq<char>) -> Seq<char> {
    "Master key MD5 mismatch: expected "@ + MASTER_KEY_MD5@ + ", got "@ + hash
}

/// What the two matched key halves give: the interleaved key when both
/// parse to eight bytes and the key's MD5 is the expected one.
pub open spec fn key_from_halves_spec(a: Seq<char>, b: Seq<char>, r: Result<[u8; 16], DeezerError>) -> bool {
    if half_bytes(a).len() != 8 {
        r == Err::<[u8; 16], DeezerError>(DeezerError::Decrypt(r->Err_0->Decrypt_0))
            && r->Err_0->Decrypt_0@ == half_length_message(half_bytes(a).len())
    } else if half_bytes(b).len() != 8 {
        r == Err::<[u8; 16], DeezerError>(DeezerError::Decrypt(r->Err_0->Decrypt_0))
            && r->Err_0->Decrypt_0@ == half_length_message(half_bytes(b).len())
    } else {
        let key = interleave(half_bytes(a), half_bytes(b));
        if md5_hex(key) == MASTER_KEY_MD5@ {
            r is Ok && r->Ok_0@ == key
        } else {
            r is Err && r->Err_0 is Decrypt && r->Err_0->Decrypt_0@ == md5_mismatch_message(md5_hex(key))
        }
    }
}

/// Build the master key from the two matched halves and check its MD5.
pub fn key_from_halves(half_a: &str, half_b: &str) -> (r: Result<[u8; 16], DeezerError>)
    ensures
        key_from_halves_spec(half_a@, half_b@, r),
{
    let a = match parse_half(half_a) {
        Ok(a) => a,
        Err(e) => return Err(e),
    };
    let b = match parse_half(half_b) {
        Ok(b) => b,
        Err(e) => return Err(e),
    };
    let mut key = [0u8; 16];
    for i in 0..8
        invariant
            a@.len() == 8,
            b@.len() == 8,
            key@.len() == 16,
            forall|k: int| 0 <= k < 2 * i ==> #[trigger] key@[k] == (if k % 2 == 0 { a@[k / 2] } else { b@[k / 2] }),
    {
        key[2 * i] = a[i];
        key[2 * i + 1] = b[i];
    }
    assert(key@ =~= interleave(a@, b@));
    let digest = md5_of(&key);
    let hash = crate::text::to_hex_lower(&digest);
    if !crate::offline::str_eq(hash.as_str(), MASTER_KEY_MD5) {
        let mut msg = String::new();
        push_all(&mut msg, "Master key MD5 mismatch: expected ");
        push_all(&mut msg, MASTER_KEY_MD5);
        push_all(&mut msg, ", got ");
        push_all(&mut msg, hash.as_str());
        proof {
            reveal_strlit("Master key MD5 mismatch: expected ");
            reveal_strlit(", got ");
        }
        return Err(DeezerError::Decrypt(msg));
    }
    Ok(key)
}

/// What the web player's JavaScript gives as master key: an error when a
/// half is not found, else what the two matched halves give.
pub open spec fn master_key_spec(js: Seq<char>, r: Result<[u8; 16], DeezerError>) -> bool {
    match regex_find(HALF_A_PATTERN@, js) {
        None => r is Err && r->Err_0 is Decrypt
            && r->Err_0->Decrypt_0@ == "Could not find first half of master key"@,
        Some(a) => match regex_find(HALF_B_PATTERN@, js) {
            None => r is Err && r->Err_0 is Decrypt
                && r->Err_0->Decrypt_0@ == "Could not find second half of master key"@,
            Some(b) => key_from_halves_spec(a, b, r),
        },
    }
}

/// Extract the master key from the web player's JavaScript bundle.
pub fn master_key_from_js(js: &str) -> (r: Result<[u8; 16], DeezerError>)
    ensures
        master_key_spec(js@, r),
{
    let half_a = match regex_first(HALF_A_PATTERN, js) {
        Some(m) => m,
        None => {
            let mut msg = String::new();
            push_all(&mut msg, "Could not find first half of master key");
            return Err(DeezerError::Decrypt(msg));
        }
    };
    let half_b = match regex_first(HALF_B_PATTERN, js) {
        Some(m) => m,
        None => {
            let mut msg = String::new();
            push_all(&mut msg, "Could not find second half of master key");
            return Err(DeezerError::Decrypt(msg));
        }
    };
    key_from_halves(half_a.as_str(), half_b.as_str())
}

/// The URL of the web player's `app-web` JavaScript bundle in its HTML page.
pub fn find_app_web_url(html: &str) -> (r: Result<String, DeezerError>)
    ensures
        regex_find(APP_WEB_PATTERN@, html@) is Some ==> r is Ok
            && r->Ok_0@ == regex_find(APP_WEB_PATTERN@, html@)->0,
        regex_find(APP_WEB_PATTERN@, html@) is None ==> r is Err && r->Err_0 is Decrypt
            && r->Err_0->Decrypt_0@ == "Could not find app-web JS bundle URL"@,
{
    match regex_first(APP_WEB_PATTERN, html) {
        Some(m) => Ok(m),
        None => {
            let mut msg = String::new();
            push_all(&mut msg, "Could not find app-web JS bundle URL");
            Err(DeezerError::Decrypt(msg))
        }
    }
}

// ----- per-track key -----

/// ASCII code of the lower-case hexadecimal digit `d` (`0 <= d < 16`).
pub open spec fn hex_ascii(d: int) -> u8 {
    if d < 10 { (48 + d) as u8 } else { (87 + d) as u8 }
}

/// Byte `j` of the 32 ASCII characters of the lower-case hex of `digest`.
pub open spec fn hex_digest_byte(digest: Seq<u8>, j: int) -> u8 {
    if j % 2 == 0 { hex_ascii((digest[j / 2] / 16) as int) } else { hex_ascii((digest[j / 2] % 16) as int) }
}

/// The per-track Blowfish key: the XOR of the two halves of the hex MD5 of
/// the track id with the master key.
pub open spec fn track_key(track_id: Seq<u8>, master: Seq<u8>) -> Seq<u8> {
    let d = md5_digest(track_id);
    Seq::new(16, |i: int| hex_digest_byte(d, i) ^ hex_digest_byte(d, i + 16) ^ master[i])
}

fn hex_ascii_exec(d: u8) -> (c: u8)
    requires
        d < 16,
    ensures
        c == hex_ascii(d as int),
{
    if d < 10 { 48 + d } else { 87 + d }
}

fn hex_digest_byte_exec(digest: &[u8; 16], j: usize) -> (c: u8)
    requires
        j < 32,
    ensures
        c == hex_digest_byte(digest@, j as int),
{
    let x = digest[j / 2];
    if j % 2 == 0 { hex_ascii_exec(x / 16) } else { hex_ascii_exec(x % 16) }
}

/// Derive the per-track Blowfish key from the track id and the master key.
pub fn derive_track_key(track_id: &str, master_key: &[u8; 16]) -> (key: [u8; 16])
    ensures
        key@ == track_key(track_id.spec_bytes(), master_key@),
{
    let digest = md5_of(track_id.as_bytes());
    let mut key = [0u8; 16];
    for i in 0..16
        invariant
            digest@ == md5_digest(track_id.spec_bytes()),
            key@.len() == 16,
            forall|k: int| 0 <= k < i ==> #[trigger] key@[k]
                == (hex_digest_byte(digest@, k) ^ hex_digest_byte(digest@, k + 16) ^ master_key@[k]),
    {
        let x = hex_digest_byte_exec(&digest, i) ^ hex_digest_byte_exec(&digest, i + 16) ^ master_key[i];
        key[i] = x;
    }
    assert(key@ =~= track_key(track_id.spec_bytes(), master_key@));
    key
}

// ----- striped decryption -----

/// `data` with every third full 2048-byte block (blocks 0, 3, 6, ...)
/// decrypted with `key`; the other blocks and a trailing partial block stay
/// as they are.
pub open spec fn stripe_decrypted(data: Seq<u8>, key: Seq<u8>) -> Seq<u8> {
    Seq::new(data.len(), |i: int| {
        let b = i / (BLOCK_SIZE as int);
        let start = b * (BLOCK_SIZE as int);
        if b % 3 == 0 && start + (BLOCK_SIZE as int) <= data.len() {
            blowfish_cbc_decrypt(key, stripe_iv(), data.subrange(start, start + (BLOCK_SIZE as int)))[i - start]
        } else {
            data[i]
        }
    })
}

/// Byte `i` of `data` after decrypting the stripes of the first `done` blocks.
pub open spec fn stripe_partial(data: Seq<u8>, key: Seq<u8>, done: int, i: int) -> u8 {
    let b = i / (BLOCK_SIZE as int);
    let start = b * (BLOCK_SIZE as int);
    if b < done && b % 3 == 0 && start + (BLOCK_SIZE as int) <= data.len() {
        blowfish_cbc_decrypt(key, stripe_iv(), data.subrange(start, start + (BLOCK_SIZE as int)))[i - start]
    } else {
        data[i]
    }
}

proof fn lemma_block_of(i: int, b: int)
    by (nonlinear_arith)
    requires
        b * 2048 <= i < b * 2048 + 2048,
    ensures
        i / 2048 == b,
{
}

/// Decrypt a whole Deezer audio buffer in place. Only every third 2048-byte
/// block is encrypted ("BF_CBC_STRIPE").
pub fn decrypt_stream(data: &mut [u8], track_key: &[u8; 16]) -> (r: Result<(), DeezerError>)
    ensures
        r is Ok,
        final(data)@ == stripe_decrypted(old(data)@, track_key@),
{
    let iv: [u8; 8] = [0u8, 1u8, 2u8, 3u8, 4u8, 5u8, 6u8, 7u8];
    assert(iv@ =~= stripe_iv());
    let ghost orig = data@;
    let n = data.len();
    let num_blocks = n / BLOCK_SIZE;
    let mut block_idx: usize = 0;
    while block_idx < num_blocks
        invariant
            n == orig.len(),
            iv@ == stripe_iv(),
            num_blocks == orig.len() / 2048,
            block_idx <= num_blocks,
            data@.len() == orig.len(),
            forall|i: int| 0 <= i < orig.len() ==> #[trigger] data@[i]
                == stripe_partial(orig, track_key@, block_idx as int, i),
        decreases num_blocks - block_idx,
    {
        assert(block_idx * 2048 + 2048 <= orig.len()) by (nonlinear_arith)
            requires
                block_idx < num_blocks,
                num_blocks == orig.len() / 2048;
        let start = block_idx * BLOCK_SIZE;
        if block_idx % 3 == 0 {
            let ghost before = data@;
            proof {
                assert forall|i: int| start <= i < start + 2048 implies #[trigger] before[i] == orig[i] by {
                    lemma_block_of(i, block_idx as int);
                }
                assert(before.subrange(start as int, start + 2048) =~= orig.subrange(start as int, start + 2048));
            }
            blowfish_cbc_in_place(track_key, &iv, data, start, BLOCK_SIZE);
            proof {
                assert forall|i: int| 0 <= i < orig.len() implies #[trigger] data@[i]
                    == stripe_partial(orig, track_key@, block_idx + 1, i) by {
                    if start <= i < start + 2048 {
                        lemma_block_of(i, block_idx as int);
                        assert(data@[i] == data@.subrange(start as int, start + 2048)[i - start]);
                    } else {
                        assert(data@[i] == before[i]);
                        let b = i / 2048;
                        assert(b != block_idx) by (nonlinear_arith)
                            requires
                                !(start <= i < start + 2048),
                                start == block_idx * 2048,
                                b == i / 2048,
                                0 <= i;
                    }
                }
            }
        } else {
            proof {
                assert forall|i: int| 0 <= i < orig.len() implies #[trigger] data@[i]
                    == stripe_partial(orig, track_key@, block_idx + 1, i) by {
                    let b = i / 2048;
                    if b == block_idx {
                        assert(b % 3 != 0);
                    }
                }
            }
        }
        block_idx += 1;
    }
    proof {
        assert forall|i: int| 0 <= i < orig.len() implies #[trigger] data@[i]
            == stripe_decrypted(orig, track_key@)[i] by {
            let b = i / 2048;
            if b >= num_blocks {
                assert(b * 2048 + 2048 > orig.len()) by (nonlinear_arith)
                    requires
                        b >= num_blocks,
                        num_blocks == orig.len() / 2048,
                        0 <= orig.len();
            }
        }
        assert(data@ =~= stripe_decrypted(orig, track_key@));
    }
    Ok(())
}


/// Decrypt downloaded audio in place with the key of its track.
pub fn decrypt_track(data: &mut [u8], track_id: &str, master_key: &[u8; 16]) -> (r: Result<(), DeezerError>)
    ensures
        r is Ok,
        final(data)@ == stripe_decrypted(old(data)@, track_key(track_id.spec_bytes(), master_key@)),
{
    let key = derive_track_key(track_id, master_key);
    decrypt_stream(data, &key)
}

} // verus!
