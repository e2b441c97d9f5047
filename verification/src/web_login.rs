//! Text handling of the browser login: recognising the ARL token in what
//! the URI handler wrote or what the user pasted, and the files that
//! register the temporary `deezer://` handler.

use vstd::prelude::*;
use crate::text::{chars_of, string_of, trim_chars, trim, all_hex, is_hex_digit, push_all};
use crate::decrypt::{occurs_at, occurs_at_exec, subvec};
use crate::models::{contains_seq, contains_str};

verus! {

/// Shortest accepted ARL token.
pub const MIN_ARL_LEN: usize = 128;

/// `s` starts with `p`.
pub open spec fn starts_with(s: Seq<char>, p: Seq<char>) -> bool {
    p.len() <= s.len() && s.take(p.len() as int) == p
}

/// The token part of a login input: trimmed, without a leading
/// `deezer://autolog/` or `autolog/`, trimmed again.
pub open spec fn arl_candidate(input: Seq<char>) -> Seq<char> {
    let t = trim(input);
    let rest = if starts_with(t, "deezer://autolog/"@) {
        t.skip("deezer://autolog/"@.len() as int)
    } else if starts_with(t, "autolog/"@) {
        t.skip("autolog/"@.len() as int)
    } else {
        t
    };
    trim(rest)
}

/// The ARL in a login input: the candidate when it is at least
/// `MIN_ARL_LEN` hexadecimal digits.
pub open spec fn arl_of(input: Seq<char>) -> Option<Seq<char>> {
    let a = arl_candidate(input);
    if a.len() >= MIN_ARL_LEN && all_hex(a) { Some(a) } else { None }
}

fn starts_with_chars(v: &Vec<char>, p: &str) -> (b: bool)
    ensures
        b == starts_with(v@, p@),
{
    let pv = chars_of(p);
    if pv.len() > v.len() {
        return false;
    }
    let mut k: usize = 0;
    while k < pv.len()
        invariant
            pv@ == p@,
            pv@.len() <= v@.len(),
            k <= pv@.len(),
            forall|m: int| 0 <= m < k ==> v@[m] == pv@[m],
        decreases pv@.len() - k,
    {
        if v[k] != pv[k] {
            assert(v@.take(pv@.len() as int)[k as int] != pv@[k as int]);
            return false;
        }
        k += 1;
    }
    assert(v@.take(pv@.len() as int) =~= pv@);
    true
}

fn skip_chars(v: &Vec<char>, n: usize) -> (r: Vec<char>)
    requires
        n <= v@.len(),
    ensures
        r@ == v@.skip(n as int),
{
    let mut r: Vec<char> = Vec::new();
    let mut k = n;
    while k < v.len()
        invariant
            n <= k <= v@.len(),
            r@ == v@.subrange(n as int, k as int),
        decreases v@.len() - k,
    {
        r.push(v[k]);
        assert(v@.subrange(n as int, k + 1) == v@.subrange(n as int, k as int).push(v@[k as int]));
        k += 1;
    }
    r
}

/// Parse an ARL from a full `deezer://autolog/<ARL>` link, an
/// `autolog/<ARL>` fragment or a raw token, with surrounding white space.
pub fn parse_arl(input: &str) -> (r: Option<String>)
    ensures
        r is Some == arl_of(input@) is Some,
        r is Some ==> r->0@ == arl_of(input@)->0,
{
    let v = chars_of(input);
    let t = trim_chars(v.as_slice());
    proof {
        reveal_strlit("deezer://autolog/");
        reveal_strlit("autolog/");
    }
    let rest = if starts_with_chars(&t, "deezer://autolog/") {
        skip_chars(&t, 17)
    } else if starts_with_chars(&t, "autolog/") {
        skip_chars(&t, 8)
    } else {
        t
    };
    let a = trim_chars(rest.as_slice());
    if a.len() < MIN_ARL_LEN {
        return None;
    }
    assert(a@ == arl_candidate(input@));
    for i in 0..a.len()
        invariant
            a@ == arl_candidate(input@),
            a@.len() >= MIN_ARL_LEN,
            forall|k: int| 0 <= k < i ==> is_hex_digit(#[trigger] a@[k]),
    {
        let c = a[i];
        if !(('0' <= c && c <= '9') || ('a' <= c && c <= 'f') || ('A' <= c && c <= 'F')) {
            assert(!is_hex_digit(a@[i as int]));
            return None;
        }
    }
    Some(string_of(a.as_slice()))
}

/// What one pasted line means while waiting for the token.
#[derive(Debug, PartialEq, Eq)]
pub enum PastedLine {
    /// An empty line cancels the login.
    Cancel,
    /// The line holds a token.
    Token(String),
    /// Anything else: the user is asked again.
    Invalid,
}

/// Read one pasted line: empty (after trimming) cancels, a token is taken,
/// anything else is invalid.
pub fn classify_pasted_line(line: &str) -> (r: PastedLine)
    ensures
        trim(line@).len() == 0 ==> r == PastedLine::Cancel,
        trim(line@).len() != 0 && arl_of(line@) is Some ==> r is Token && r->Token_0@ == arl_of(line@)->0,
        trim(line@).len() != 0 && arl_of(line@) is None ==> r == PastedLine::Invalid,
{
    let v = chars_of(line);
    let t = trim_chars(v.as_slice());
    if t.len() == 0 {
        return PastedLine::Cancel;
    }
    match parse_arl(line) {
        Some(arl) => PastedLine::Token(arl),
        None => PastedLine::Invalid,
    }
}

// ----- the temporary link handler -----

/// Mime type of `deezer://` links.
pub const MIME_TYPE: &'static str = "x-scheme-handler/deezer";

/// The script that the handler runs: it writes the token of the link it is
/// given to `auth_file`.
pub open spec fn handler_script_text(auth_file: Seq<char>) -> Seq<char> {
    "#!/bin/sh\nARL=\"${1#deezer://autolog/}\"\necho \"$ARL\" > '"@ + auth_file + "'\n"@
}

/// The desktop entry that registers `script` for `deezer://` links.
pub open spec fn desktop_entry_text(script: Seq<char>) -> Seq<char> {
    "[Desktop Entry]\nType=Application\nName=Deezer TUI Auth\nExec="@ + script
        + " %u\nMimeType=x-scheme-handler/deezer;\nNoDisplay=true\nTerminal=false\n"@
}

pub fn handler_script(auth_file: &str) -> (s: String)
    ensures
        s@ == handler_script_text(auth_file@),
{
    let mut s = String::new();
    push_all(&mut s, "#!/bin/sh\nARL=\"${1#deezer://autolog/}\"\necho \"$ARL\" > '");
    push_all(&mut s, auth_file);
    push_all(&mut s, "'\n");
    s
}

pub fn desktop_entry(script: &str) -> (s: String)
    ensures
        s@ == desktop_entry_text(script@),
{
    let mut s = String::new();
    push_all(&mut s, "[Desktop Entry]\nType=Application\nName=Deezer TUI Auth\nExec=");
    push_all(&mut s, script);
    push_all(&mut s, " %u\nMimeType=x-scheme-handler/deezer;\nNoDisplay=true\nTerminal=false\n");
    s
}

/// The first occurrence of `w` in `s` at `i` or after.
pub open spec fn find_from(s: Seq<char>, w: Seq<char>, i: nat) -> Option<nat>
    decreases s.len() - i,
{
    if i + w.len() > s.len() {
        None
    } else if occurs_at(s, w, i as int) {
        Some(i)
    } else if i >= s.len() {
        None
    } else {
        find_from(s, w, i + 1)
    }
}

/// `mimeapps.list` with `handler` turned off for `deezer://` links: the
/// entry goes on the line after the `[Removed Associations]` header, or in
/// a new such section at the end. `None` when the section exists and the
/// entry is already in the file.
pub open spec fn removal_added(content: Seq<char>, handler: Seq<char>) -> Option<Seq<char>> {
    let entry = "x-scheme-handler/deezer="@ + handler;
    let header = "[Removed Associations]"@;
    match find_from(content, header, 0) {
        Some(pos) => {
            let after = pos + header.len();
            let at = match find_from(content.skip(after as int), "\n"@, 0) {
                Some(p) => (after + p + 1) as int,
                None => content.len() as int,
            };
            if contains_seq(content, entry) {
                None
            } else {
                Some(content.take(at) + entry + "\n"@ + content.skip(at))
            }
        },
        None => {
            let base = if content.len() > 0 && content.last() != '\n' { content.push('\n') } else { content };
            Some(base + "\n[Removed Associations]\n"@ + entry + "\n"@)
        },
    }
}

proof fn lemma_find_from(s: Seq<char>, w: Seq<char>, i: nat)
    ensures
        find_from(s, w, i) is Some ==> i <= find_from(s, w, i)->0 && occurs_at(s, w, find_from(s, w, i)->0 as int),
    decreases s.len() - i,
{
    if i + w.len() <= s.len() && !occurs_at(s, w, i as int) && i < s.len() {
        lemma_find_from(s, w, i + 1);
    }
}

fn find_chars(v: &Vec<char>, w: &Vec<char>, from: usize) -> (r: Option<usize>)
    requires
        from <= v@.len(),
    ensures
        r is Some == find_from(v@, w@, from as nat) is Some,
        r is Some ==> r->0 as nat == find_from(v@, w@, from as nat)->0,
{
    let mut i = from;
    while i <= v.len() && w.len() <= v.len() - i
        invariant
            from <= i <= v@.len() + 1,
            find_from(v@, w@, from as nat) == find_from(v@, w@, i as nat),
        decreases v@.len() + 1 - i,
    {
        if occurs_at_exec(v, w, i) {
            return Some(i);
        }
        if i >= v.len() {
            return None;
        }
        i += 1;
    }
    None
}

/// Turn `handler` off for `deezer://` links in the text of a
/// `mimeapps.list`; `None` when nothing is to be written.
pub fn removal_entry_added(content: &str, handler: &str) -> (r: Option<String>)
    ensures
        r is Some == removal_added(content@, handler@) is Some,
        r is Some ==> r->0@ == removal_added(content@, handler@)->0,
{
    let v = chars_of(content);
    let mut entry = String::new();
    push_all(&mut entry, "x-scheme-handler/deezer=");
    push_all(&mut entry, handler);
    let header = chars_of("[Removed Associations]");
    proof {
        reveal_strlit("[Removed Associations]");
        reveal_strlit("x-scheme-handler/deezer=");
    }
    let vl = v.len();
    match find_chars(&v, &header, 0) {
        Some(pos) => {
            proof {
                lemma_find_from(v@, header@, 0);
                let fp = find_from(v@, header@, 0)->0;
                assert(occurs_at(v@, header@, fp as int));
                assert(fp + header@.len() <= v@.len());
                assert(pos as nat == fp);
            }
            let after = pos + header.len();
            let rest = subvec(&v, after, vl);
            assert(rest@ =~= v@.skip(after as int));
            let nl = chars_of("\n");
            proof {
                reveal_strlit("\n");
                lemma_find_from(rest@, nl@, 0);
            }
            let at = match find_chars(&rest, &nl, 0) {
                Some(p) => after + p + 1,
                None => vl,
            };
            let ev = chars_of(entry.as_str());
            if contains_str(v.as_slice(), ev.as_slice()) {
                None
            } else {
                let head = subvec(&v, 0, at);
                let tail = subvec(&v, at, vl);
                let mut out = string_of(head.as_slice());
                push_all(&mut out, entry.as_str());
                push_all(&mut out, "\n");
                let t = string_of(tail.as_slice());
                push_all(&mut out, t.as_str());
                proof {
                    assert(head@ =~= v@.take(at as int));
                    assert(tail@ =~= v@.skip(at as int));
                }
                Some(out)
            }
        }
        None => {
            let mut out = string_of(v.as_slice());
            if v.len() > 0 && v[v.len() - 1] != '\n' {
                crate::text::push_char(&mut out, '\n');
            }
            push_all(&mut out, "\n[Removed Associations]\n");
            push_all(&mut out, entry.as_str());
            push_all(&mut out, "\n");
            Some(out)
        }
    }
}

} // verus!
