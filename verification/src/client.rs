//! Decisions of the terminal client that do not draw: key handling of the
//! login screen and of the main screen (`main_keys`), of the overlays and
//! pages (`overlay_keys`) and of the menus (`popup`), text fields, list
//! filters, the offline albums tree, taking in the daemon's snapshots
//! (`snapshot_sync`), and the update check's version comparison.

pub mod keys;
pub mod main_keys;
pub mod overlay_keys;
pub mod popup;
pub mod snapshot_sync;

use vstd::prelude::*;
use crate::models::{TrackData, DisplayItem, AlbumDetail, lowercase, to_lowercase};
use crate::protocol::{Command, RadioItem};
use crate::text::{chars_of, string_of, parse_u64, parse_u64_spec};
use crate::offline::str_eq;
use crate::decrypt::{split_chars, split_on, char_views};

verus! {

// ----- keys -----

/// A key, as the client reads it from the terminal.
#[derive(Debug, Clone, Copy, PartialEq, Eq, Structural)]
pub enum KeyCode {
    Char(char),
    Enter,
    Esc,
    Backspace,
    Delete,
    Left,
    Right,
    Up,
    Down,
    Tab,
    BackTab,
    /// Any other key.
    Other,
}

/// A key press with the state of the Control modifier.
#[derive(Debug, Clone, Copy, PartialEq, Eq, Structural)]
pub struct Key {
    pub code: KeyCode,
    pub ctrl: bool,
}

/// What the client does after a key press.
#[derive(Debug)]
pub enum KeyAction {
    /// Nothing more.
    Continue,
    /// Send a command to the daemon.
    SendCommand(Command),
    /// Send shutdown to the daemon and exit.
    Quit,
    /// Exit, leaving the daemon running.
    Detach,
    /// Open the browser for the Deezer web login.
    WebLogin,
    /// Copy a link to the clipboard, then report with
    /// `MenuView::link_copied`.
    CopyLink { url: String },
    /// Raise or lower the volume by one step.
    ChangeVolume { up: bool },
    /// Switch the interface language and save it.
    SetLanguage(crate::i18n::Locale),
    /// Show a theme while it is being chosen.
    PreviewTheme(crate::theme::ThemeId),
    /// Keep a theme and save it.
    SaveTheme(crate::theme::ThemeId),
    /// Download and install an update, then restart.
    PerformUpdate { version: String, download_url: String },
    /// Never check for updates again.
    SkipUpdates,
}

// ----- text fields -----

/// A one-line text field with a cursor counted in characters.
#[derive(Debug)]
pub struct TextField {
    pub text: Vec<char>,
    pub cursor: usize,
}

/// What an editing key does to a text field's text and cursor. (A field
/// that already holds `usize::MAX` characters takes no more.)
pub open spec fn edited(text: Seq<char>, cursor: int, code: KeyCode) -> (Seq<char>, int) {
    match code {
        KeyCode::Char(c) => if text.len() < usize::MAX { (text.insert(cursor, c), cursor + 1) } else { (text, cursor) },
        KeyCode::Backspace => if cursor > 0 { (text.remove(cursor - 1), cursor - 1) } else { (text, cursor) },
        KeyCode::Left => (text, if cursor > 0 { cursor - 1 } else { 0 }),
        KeyCode::Right => (text, if cursor < text.len() { cursor + 1 } else { cursor }),
        _ => (text, cursor),
    }
}

impl TextField {
    pub open spec fn wf(&self) -> bool {
        self.cursor <= self.text@.len()
    }

    /// An empty field.
    pub fn new() -> (f: Self)
        ensures
            f.wf(),
            f.text@.len() == 0,
            f.cursor == 0,
    {
        TextField { text: Vec::new(), cursor: 0 }
    }

    /// A field holding `s` with the cursor at its end.
    pub fn with_text(s: &str) -> (f: Self)
        ensures
            f.wf(),
            f.text@ == s@,
            f.cursor == s@.len(),
    {
        let text = chars_of(s);
        let cursor = text.len();
        TextField { text, cursor }
    }

    /// Apply an editing key: a character is inserted at the cursor,
    /// backspace deletes before it, left and right move it; other keys
    /// change nothing.
    pub fn edit(&mut self, code: KeyCode)
        requires
            old(self).wf(),
        ensures
            final(self).wf(),
            (final(self).text@, final(self).cursor as int) == edited(old(self).text@, old(self).cursor as int, code),
    {
        match code {
            KeyCode::Char(c) => {
                if self.text.len() < usize::MAX {
                    self.text.insert(self.cursor, c);
                    self.cursor = self.cursor + 1;
                }
            }
            KeyCode::Backspace => {
                if self.cursor > 0 {
                    self.cursor = self.cursor - 1;
                    self.text.remove(self.cursor);
                }
            }
            KeyCode::Left => {
                if self.cursor > 0 {
                    self.cursor = self.cursor - 1;
                }
            }
            KeyCode::Right => {
                if self.cursor < self.text.len() {
                    self.cursor = self.cursor + 1;
                }
            }
            _ => {}
        }
    }

    /// The text of the field.
    pub fn to_string(&self) -> (s: String)
        ensures
            s@ == self.text@,
    {
        string_of(self.text.as_slice())
    }
}

// ----- login screen -----

/// Sub-mode of the login screen.
#[derive(Debug, Clone, Copy, PartialEq, Eq, Structural)]
pub enum LoginMode {
    /// A "Login" button: Enter opens the browser, `w` asks for a token.
    Button,
    /// Token input: Enter submits, Esc goes back to the button.
    ArlInput,
}

/// State of the login screen.
#[derive(Debug)]
pub struct LoginView {
    pub mode: LoginMode,
    pub input: TextField,
    /// A login is under way; keys are ignored.
    pub loading: bool,
}

/// What a key does on the login screen.
pub open spec fn login_key(pre: LoginView, post: LoginView, key: Key, action: KeyAction) -> bool {
    if pre.loading {
        post == pre && action is Continue
    } else {
        match pre.mode {
            LoginMode::Button => match key.code {
                KeyCode::Enter => post == pre && action is WebLogin,
                KeyCode::Char('w') => post.mode == LoginMode::ArlInput && post.input.text@.len() == 0
                    && post.input.cursor == 0 && post.loading == pre.loading && action is Continue,
                KeyCode::Esc => post == pre && action is Quit,
                _ => post == pre && action is Continue,
            },
            LoginMode::ArlInput => match key.code {
                KeyCode::Esc => post.mode == LoginMode::Button && post.input.text@.len() == 0
                    && post.input.cursor == 0 && post.loading == pre.loading && action is Continue,
                KeyCode::Enter => if pre.input.text@.len() > 0 {
                    &&& post == LoginView { loading: true, ..pre }
                    &&& action matches KeyAction::SendCommand(Command::Login { arl }) && arl@ == pre.input.text@
                } else {
                    post == pre && action is Continue
                },
                KeyCode::Char(_) | KeyCode::Backspace | KeyCode::Left | KeyCode::Right => {
                    &&& (post.input.text@, post.input.cursor as int)
                        == edited(pre.input.text@, pre.input.cursor as int, key.code)
                    &&& post.mode == pre.mode && post.loading == pre.loading
                    &&& action is Continue
                },
                _ => post == pre && action is Continue,
            },
        }
    }
}

impl LoginView {
    pub fn new() -> (v: Self)
        ensures
            v.mode == LoginMode::Button,
            v.input.text@.len() == 0 && v.input.cursor == 0,
            !v.loading,
    {
        LoginView { mode: LoginMode::Button, input: TextField::new(), loading: false }
    }

    /// Handle a key on the login screen.
    pub fn handle_login_key(&mut self, key: Key) -> (action: KeyAction)
        requires
            old(self).input.wf(),
        ensures
            final(self).input.wf(),
            login_key(*old(self), *final(self), key, action),
    {
        if self.loading {
            return KeyAction::Continue;
        }
        match self.mode {
            LoginMode::Button => match key.code {
                KeyCode::Enter => KeyAction::WebLogin,
                KeyCode::Char('w') => {
                    self.mode = LoginMode::ArlInput;
                    self.input = TextField::new();
                    KeyAction::Continue
                }
                KeyCode::Esc => KeyAction::Quit,
                _ => KeyAction::Continue,
            },
            LoginMode::ArlInput => match key.code {
                KeyCode::Esc => {
                    self.mode = LoginMode::Button;
                    self.input = TextField::new();
                    KeyAction::Continue
                }
                KeyCode::Enter => {
                    if self.input.text.len() > 0 {
                        let arl = self.input.to_string();
                        self.loading = true;
                        KeyAction::SendCommand(Command::Login { arl })
                    } else {
                        KeyAction::Continue
                    }
                }
                KeyCode::Char(_) | KeyCode::Backspace | KeyCode::Left | KeyCode::Right => {
                    self.input.edit(key.code);
                    KeyAction::Continue
                }
                _ => KeyAction::Continue,
            },
        }
    }
}

// ----- fuzzy filtering -----

/// Every character of `query` appears in `target`, in order.
pub open spec fn is_subsequence(query: Seq<char>, target: Seq<char>) -> bool
    decreases target.len(),
{
    if query.len() == 0 {
        true
    } else if target.len() == 0 {
        false
    } else if query[0] == target[0] {
        is_subsequence(query.drop_first(), target.drop_first())
    } else {
        is_subsequence(query, target.drop_first())
    }
}

/// Fuzzy match: every character of `query` appears in `target` as a
/// subsequence (both already lower-cased by the caller).
pub fn fuzzy_match(query: &str, target: &str) -> (b: bool)
    ensures
        b == is_subsequence(query@, target@),
{
    let q = chars_of(query);
    let t = chars_of(target);
    let mut i: usize = 0;
    let mut j: usize = 0;
    assert(q@.skip(0) =~= q@);
    assert(t@.skip(0) =~= t@);
    while i < q.len()
        invariant
            q@ == query@,
            t@ == target@,
            i <= q@.len(),
            j <= t@.len(),
            is_subsequence(query@, target@) == is_subsequence(q@.skip(i as int), t@.skip(j as int)),
        decreases t@.len() - j + q@.len() - i,
    {
        if j == t.len() {
            return false;
        }
        assert(q@.skip(i as int).drop_first() =~= q@.skip(i + 1));
        assert(t@.skip(j as int).drop_first() =~= t@.skip(j + 1));
        if q[i] == t[j] {
            i += 1;
        }
        j += 1;
    }
    true
}

/// The favorites rows that a filter keeps: all of them for an empty query,
/// else those whose first or second column matches it (lower-cased).
pub open spec fn favorite_kept(query: Seq<char>, item: DisplayItem) -> bool {
    lowercase(query).len() == 0
        || is_subsequence(lowercase(query), lowercase(item.col1@))
        || is_subsequence(lowercase(query), lowercase(item.col2@))
}

/// The indices of the rows that the favorites filter keeps, in order.
pub open spec fn favorites_filtered(query: Seq<char>, items: Seq<DisplayItem>) -> Seq<int>
    decreases items.len(),
{
    if items.len() == 0 {
        seq![]
    } else if favorite_kept(query, items.last()) {
        favorites_filtered(query, items.drop_last()).push(items.len() - 1)
    } else {
        favorites_filtered(query, items.drop_last())
    }
}

/// Apply the favorites filter: the original indices of the rows it keeps.
pub fn filter_favorites(query: &str, items: &Vec<DisplayItem>) -> (r: Vec<usize>)
    ensures
        r@.map_values(|x: usize| x as int) == favorites_filtered(query@, items@),
{
    let q = to_lowercase(query);
    let empty = chars_of(q.as_str()).len() == 0;
    let mut r: Vec<usize> = Vec::new();
    for i in 0..items.len()
        invariant
            q@ == lowercase(query@),
            empty == (q@.len() == 0),
            r@.map_values(|x: usize| x as int) == favorites_filtered(query@, items@.take(i as int)),
    {
        let ghost prev = favorites_filtered(query@, items@.take(i as int));
        assert(items@.take(i + 1).drop_last() =~= items@.take(i as int));
        assert(items@.take(i + 1).last() == items@[i as int]);
        let keep = empty
            || fuzzy_match(q.as_str(), to_lowercase(items[i].col1.as_str()).as_str())
            || fuzzy_match(q.as_str(), to_lowercase(items[i].col2.as_str()).as_str());
        assert(keep == favorite_kept(query@, items@[i as int]));
        if keep {
            r.push(i);
            assert(r@.map_values(|x: usize| x as int) =~= prev.push(i as int));
        }
    }
    assert(items@.take(items@.len() as int) =~= items@);
    r
}


/// The radios that the radio filter keeps: all for an empty filter, else
/// those whose lower-cased title matches the lower-cased filter.
pub open spec fn radios_filtered(filter: Seq<char>, radios: Seq<RadioItem>) -> Seq<RadioItem> {
    if filter.len() == 0 {
        radios
    } else {
        radios.filter(|r: RadioItem| is_subsequence(lowercase(filter), lowercase(r.title@)))
    }
}

/// Apply the radio filter.
pub fn filter_radios(filter: &str, radios: &Vec<RadioItem>) -> (r: Vec<RadioItem>)
    ensures
        r@ == radios_filtered(filter@, radios@),
{
    if chars_of(filter).len() == 0 {
        return crate::protocol::clone_radios(radios);
    }
    let q = to_lowercase(filter);
    let ghost pred = |r: RadioItem| is_subsequence(lowercase(filter@), lowercase(r.title@));
    let mut r: Vec<RadioItem> = Vec::new();
    for i in 0..radios.len()
        invariant
            q@ == lowercase(filter@),
            filter@.len() != 0,
            pred == (|r: RadioItem| is_subsequence(lowercase(filter@), lowercase(r.title@))),
            r@ == radios@.take(i as int).filter(pred),
    {
        proof {
            let pre = radios@.take(i as int);
            assert(radios@.take(i + 1) == pre.push(radios@[i as int]));
            pre.lemma_filter_push(radios@[i as int], pred);
        }
        if fuzzy_match(q.as_str(), to_lowercase(radios[i].title.as_str()).as_str()) {
            r.push(radios[i].clone());
        }
    }
    assert(radios@.take(radios@.len() as int) =~= radios@);
    r
}

/// A selection kept inside a list of `len` rows: at most its last row (0
/// for an empty list).
pub open spec fn clamped(selected: int, len: int) -> int {
    if len == 0 { 0 } else if selected > len - 1 { len - 1 } else { selected }
}

pub fn clamp_selection(selected: usize, len: usize) -> (r: usize)
    ensures
        r == clamped(selected as int, len as int),
{
    let last = if len == 0 { 0 } else { len - 1 };
    if selected > last { last } else { selected }
}

/// One step down a list of `len` rows, staying on the last row.
pub open spec fn stepped_down(selected: int, len: int) -> int {
    if len == 0 { selected } else if selected + 1 > len - 1 { len - 1 } else { selected + 1 }
}

pub fn step_down(selected: usize, len: usize) -> (r: usize)
    ensures
        r == stepped_down(selected as int, len as int),
{
    if len == 0 {
        selected
    } else if selected >= len - 1 {
        len - 1
    } else {
        selected + 1
    }
}

/// One step up a list, staying on the first row.
pub open spec fn stepped_up(selected: usize) -> usize {
    if selected > 0 { (selected - 1) as usize } else { 0 }
}

pub fn step_up(selected: usize) -> (r: usize)
    ensures
        r == stepped_up(selected),
{
    if selected > 0 { selected - 1 } else { 0 }
}

/// The keys that move a selection up.
pub open spec fn is_up(code: KeyCode) -> bool {
    code == KeyCode::Up || code == KeyCode::Char('k')
}

/// The keys that move a selection down.
pub open spec fn is_down(code: KeyCode) -> bool {
    code == KeyCode::Down || code == KeyCode::Char('j')
}

pub fn up_key(code: KeyCode) -> (b: bool)
    ensures
        b == is_up(code),
{
    code == KeyCode::Up || code == KeyCode::Char('k')
}

pub fn down_key(code: KeyCode) -> (b: bool)
    ensures
        b == is_down(code),
{
    code == KeyCode::Down || code == KeyCode::Char('j')
}

// ----- the offline albums tree -----

/// A row of the offline albums tree.
#[derive(Debug, Clone, Copy, PartialEq, Eq, Structural)]
pub enum OfflineTreeItem {
    /// An album header (index into the offline albums).
    Album(usize),
    /// A track (album index, track index within the album).
    Track(usize, usize),
}

/// Some expanded id is `id`.
pub open spec fn is_expanded(expanded: Seq<String>, id: Seq<char>) -> bool {
    exists|k: int| 0 <= k < expanded.len() && (#[trigger] expanded[k])@ == id
}

/// The rows of the tree for albums `0..n`: each album, followed by its
/// tracks when it is expanded.
pub open spec fn tree_rows(albums: Seq<AlbumDetail>, expanded: Seq<String>, n: int) -> Seq<OfflineTreeItem>
    decreases n,
{
    if n <= 0 {
        seq![]
    } else {
        let a = albums[n - 1];
        let head = tree_rows(albums, expanded, n - 1).push(OfflineTreeItem::Album((n - 1) as usize));
        if is_expanded(expanded, a.album_id@) {
            head + Seq::new(a.tracks@.len(), |j: int| OfflineTreeItem::Track((n - 1) as usize, j as usize))
        } else {
            head
        }
    }
}

fn expanded_contains(expanded: &Vec<String>, id: &str) -> (b: bool)
    ensures
        b == is_expanded(expanded@, id@),
{
    for k in 0..expanded.len()
        invariant
            forall|m: int| 0 <= m < k ==> (#[trigger] expanded@[m])@ != id@,
    {
        if str_eq(expanded[k].as_str(), id) {
            return true;
        }
    }
    false
}

/// The flattened rows of the offline albums tree.
pub fn offline_tree_items(albums: &Vec<AlbumDetail>, expanded: &Vec<String>) -> (r: Vec<OfflineTreeItem>)
    ensures
        r@ == tree_rows(albums@, expanded@, albums@.len() as int),
{
    let mut r: Vec<OfflineTreeItem> = Vec::new();
    for i in 0..albums.len()
        invariant
            r@ == tree_rows(albums@, expanded@, i as int),
    {
        let ghost head = r@.push(OfflineTreeItem::Album(i));
        r.push(OfflineTreeItem::Album(i));
        if expanded_contains(expanded, albums[i].album_id.as_str()) {
            let n = albums[i].tracks.len();
            for j in 0..n
                invariant
                    n == albums@[i as int].tracks@.len(),
                    r@ == head + Seq::new(j as nat, |t: int| OfflineTreeItem::Track(i, t as usize)),
            {
                r.push(OfflineTreeItem::Track(i, j));
                assert(r@ =~= head + Seq::new((j + 1) as nat, |t: int| OfflineTreeItem::Track(i, t as usize)));
            }
            assert(r@ =~= tree_rows(albums@, expanded@, i + 1));
        } else {
            assert(r@ =~= tree_rows(albums@, expanded@, i + 1));
        }
    }
    r
}

/// `expanded` with `id` added, or with every copy of it removed when it is
/// there (expanding or folding an album).
pub open spec fn toggled(expanded: Seq<String>, id: Seq<char>) -> Seq<Seq<char>> {
    if is_expanded(expanded, id) {
        expanded.filter(|e: String| e@ != id).map_values(|e: String| e@)
    } else {
        expanded.map_values(|e: String| e@).push(id)
    }
}

/// Expand or fold an album of the offline tree.
pub fn toggle_expanded(expanded: &mut Vec<String>, id: &str)
    ensures
        final(expanded)@.map_values(|e: String| e@) == toggled(old(expanded)@, id@),
{
    if expanded_contains(expanded, id) {
        let ghost pred = |e: String| e@ != id@;
        let mut kept: Vec<String> = Vec::new();
        for k in 0..expanded.len()
            invariant
                pred == (|e: String| e@ != id@),
                kept@.map_values(|e: String| e@) == expanded@.take(k as int).filter(pred).map_values(|e: String| e@),
        {
            proof {
                let pre = expanded@.take(k as int);
                assert(expanded@.take(k + 1) == pre.push(expanded@[k as int]));
                pre.lemma_filter_push(expanded@[k as int], pred);
            }
            if !str_eq(expanded[k].as_str(), id) {
                let ghost f0 = expanded@.take(k as int).filter(pred);
                let ghost e = expanded@[k as int];
                assert(expanded@.take(k + 1).filter(pred) == f0.push(e));
                kept.push(expanded[k].clone());
                assert(f0.push(e).map_values(|x: String| x@) =~= f0.map_values(|x: String| x@).push(e@));
                assert(kept@.map_values(|e: String| e@) =~= expanded@.take(k + 1).filter(pred).map_values(|e: String| e@));
            } else {
                assert(kept@.map_values(|e: String| e@) =~= expanded@.take(k + 1).filter(pred).map_values(|e: String| e@));
            }
        }
        assert(expanded@.take(expanded@.len() as int) =~= expanded@);
        *expanded = kept;
    } else {
        let mut s = String::new();
        crate::text::push_all(&mut s, id);
        expanded.push(s);
        assert(expanded@.map_values(|e: String| e@) =~= old(expanded)@.map_values(|e: String| e@).push(id@));
    }
}

// ----- update check -----

/// The numbers of a version text: its dot-separated pieces that parse as
/// `u32`, in order.
pub open spec fn version_numbers(pieces: Seq<Seq<char>>) -> Seq<u32>
    decreases pieces.len(),
{
    if pieces.len() == 0 {
        seq![]
    } else {
        let rest = version_numbers(pieces.drop_last());
        match parse_u64_spec(pieces.last()) {
            Some(n) => if n <= u32::MAX { rest.push(n as u32) } else { rest },
            None => rest,
        }
    }
}

/// The `(major, minor, patch)` of a version text (missing parts are 0).
pub open spec fn version_triple(v: Seq<char>) -> (u32, u32, u32) {
    let ns = version_numbers(split_on(v, seq!['.']));
    (
        if ns.len() > 0 { ns[0] } else { 0 },
        if ns.len() > 1 { ns[1] } else { 0 },
        if ns.len() > 2 { ns[2] } else { 0 },
    )
}

/// `a > b` on triples, ordered by their first, then second, then third part.
pub open spec fn triple_greater(a: (u32, u32, u32), b: (u32, u32, u32)) -> bool {
    a.0 > b.0 || (a.0 == b.0 && (a.1 > b.1 || (a.1 == b.1 && a.2 > b.2)))
}

fn version_of(v: &str) -> (t: (u32, u32, u32))
    ensures
        t == version_triple(v@),
{
    let chars = chars_of(v);
    let mut dot: Vec<char> = Vec::new();
    dot.push('.');
    assert(dot@ =~= seq!['.']);
    let pieces = split_chars(&chars, &dot);
    let ghost views = char_views(pieces@);
    let mut ns: Vec<u32> = Vec::new();
    for i in 0..pieces.len()
        invariant
            views == char_views(pieces@),
            ns@ == version_numbers(views.take(i as int)),
    {
        assert(views.take(i + 1).drop_last() =~= views.take(i as int));
        assert(views.take(i + 1).last() == pieces@[i as int]@);
        let piece = string_of(pieces[i].as_slice());
        match parse_u64(piece.as_str()) {
            Some(n) => {
                if n <= 0xffff_ffffu64 {
                    ns.push(n as u32);
                }
            }
            None => {}
        }
    }
    assert(views.take(views.len() as int) =~= views);
    let a = if ns.len() > 0 { ns[0] } else { 0 };
    let b = if ns.len() > 1 { ns[1] } else { 0 };
    let c = if ns.len() > 2 { ns[2] } else { 0 };
    (a, b, c)
}

/// Simple semantic-version comparison: whether `remote` is newer than
/// `current`.
pub fn version_is_newer(remote: &str, current: &str) -> (b: bool)
    ensures
        b == triple_greater(version_triple(remote@), version_triple(current@)),
{
    let a = version_of(remote);
    let c = version_of(current);
    a.0 > c.0 || (a.0 == c.0 && (a.1 > c.1 || (a.1 == c.1 && a.2 > c.2)))
}


// ----- overlays -----

/// Navigation overlays that the daemon mirrors so that a new client comes
/// back to them.
#[derive(Debug, Clone, Copy, PartialEq, Eq, Structural)]
pub enum NavOverlay {
    ArtistDetail,
    AlbumDetail { from_artist: bool },
    PlaylistDetail,
}

/// A change of the navigation overlays, to be mirrored by the daemon.
#[derive(Debug, Clone, Copy, PartialEq, Eq, Structural)]
pub enum NavChange {
    Push(NavOverlay),
    Pop,
    Clear,
}

/// Overlays of the main screen.
#[derive(Debug)]
pub enum Overlay {
    Help { scroll: usize },
    Settings { selected: usize },
    ThemePicker { selected: usize },
    LanguagePicker { selected: usize },
    /// Album page; `from_artist` when opened from an artist page.
    AlbumDetail { from_artist: bool },
    ArtistDetail,
    PlaylistDetail { selected: usize },
    /// The upcoming tracks of the queue.
    WaitingList { selected: usize },
    Info,
    UpdateAvailable { version: String, download_url: String, selected: usize },
    Updating { version: String, progress_msg: String },
}

/// The navigation overlay that an overlay stands for, if it is one.
pub open spec fn nav_of(o: Overlay) -> Option<NavOverlay> {
    match o {
        Overlay::ArtistDetail => Some(NavOverlay::ArtistDetail),
        Overlay::AlbumDetail { from_artist } => Some(NavOverlay::AlbumDetail { from_artist }),
        Overlay::PlaylistDetail { .. } => Some(NavOverlay::PlaylistDetail),
        _ => None,
    }
}

impl Clone for Overlay {
    fn clone(&self) -> (r: Self)
        ensures
            r == *self,
    {
        match self {
            Overlay::Help { scroll } => Overlay::Help { scroll: *scroll },
            Overlay::Settings { selected } => Overlay::Settings { selected: *selected },
            Overlay::ThemePicker { selected } => Overlay::ThemePicker { selected: *selected },
            Overlay::LanguagePicker { selected } => Overlay::LanguagePicker { selected: *selected },
            Overlay::AlbumDetail { from_artist } => Overlay::AlbumDetail { from_artist: *from_artist },
            Overlay::ArtistDetail => Overlay::ArtistDetail,
            Overlay::PlaylistDetail { selected } => Overlay::PlaylistDetail { selected: *selected },
            Overlay::WaitingList { selected } => Overlay::WaitingList { selected: *selected },
            Overlay::Info => Overlay::Info,
            Overlay::UpdateAvailable { version, download_url, selected } => Overlay::UpdateAvailable {
                version: version.clone(),
                download_url: download_url.clone(),
                selected: *selected,
            },
            Overlay::Updating { version, progress_msg } => Overlay::Updating {
                version: version.clone(),
                progress_msg: progress_msg.clone(),
            },
        }
    }
}

impl Overlay {
    pub fn to_nav(&self) -> (r: Option<NavOverlay>)
        ensures
            r == nav_of(*self),
    {
        match self {
            Overlay::ArtistDetail => Some(NavOverlay::ArtistDetail),
            Overlay::AlbumDetail { from_artist } => Some(NavOverlay::AlbumDetail { from_artist: *from_artist }),
            Overlay::PlaylistDetail { .. } => Some(NavOverlay::PlaylistDetail),
            _ => None,
        }
    }
}

impl NavOverlay {
    /// The overlay that a mirrored navigation overlay opens.
    pub fn to_overlay(self) -> (o: Overlay)
        ensures
            nav_of(o) == Some(self),
            self == NavOverlay::PlaylistDetail ==> o == (Overlay::PlaylistDetail { selected: 0 }),
    {
        match self {
            NavOverlay::ArtistDetail => Overlay::ArtistDetail,
            NavOverlay::AlbumDetail { from_artist } => Overlay::AlbumDetail { from_artist },
            NavOverlay::PlaylistDetail => Overlay::PlaylistDetail { selected: 0 },
        }
    }
}

/// A short notification.
#[derive(Debug)]
pub struct Toast {
    pub message: String,
    /// How long it shows.
    pub duration_ms: u64,
    pub is_error: bool,
}

/// The overlays of the client: the open one and the ones under it, with
/// the navigation changes not yet sent to the daemon.
#[derive(Debug)]
pub struct OverlayStack {
    pub overlay: Option<Overlay>,
    pub stack: Vec<Overlay>,
    pub nav_changes: Vec<NavChange>,
}

/// `changes` followed by the push of `o` when it is a navigation overlay.
pub open spec fn with_push(changes: Seq<NavChange>, o: Overlay) -> Seq<NavChange> {
    match nav_of(o) {
        Some(n) => changes.push(NavChange::Push(n)),
        None => changes,
    }
}

/// `post` is `pre` after going back to the overlay underneath.
pub open spec fn popped(pre: OverlayStack, post: OverlayStack) -> bool {
    &&& post.overlay == (if pre.stack@.len() > 0 { Some(pre.stack@.last()) } else { None })
    &&& post.stack@ == (if pre.stack@.len() > 0 { pre.stack@.drop_last() } else { pre.stack@ })
    &&& post.nav_changes@ == (match pre.overlay {
        Some(o) => if nav_of(o) is Some { pre.nav_changes@.push(NavChange::Pop) } else { pre.nav_changes@ },
        None => pre.nav_changes@,
    })
}

/// `post` is `pre` with `o` opened over the current overlay.
pub open spec fn pushed(pre: OverlayStack, post: OverlayStack, o: Overlay) -> bool {
    &&& post.overlay == Some(o)
    &&& post.stack@ == (match pre.overlay {
        Some(cur) => pre.stack@.push(cur),
        None => pre.stack@,
    })
    &&& post.nav_changes@ == with_push(pre.nav_changes@, o)
}

/// `post` is `pre` with its top overlay replaced by `o` (a new selection).
pub open spec fn top_set(pre: OverlayStack, post: OverlayStack, o: Overlay) -> bool {
    &&& post.overlay == Some(o)
    &&& post.stack@ == pre.stack@
    &&& post.nav_changes@ == pre.nav_changes@
}

/// `post` shows the same overlays as `pre`.
pub open spec fn same_overlays(pre: OverlayStack, post: OverlayStack) -> bool {
    &&& post.overlay == pre.overlay
    &&& post.stack@ == pre.stack@
    &&& post.nav_changes@ == pre.nav_changes@
}

impl OverlayStack {
    pub fn new() -> (s: Self)
        ensures
            s.overlay is None && s.stack@.len() == 0 && s.nav_changes@.len() == 0,
    {
        OverlayStack { overlay: None, stack: Vec::new(), nav_changes: Vec::new() }
    }

    /// Open `new` over the current overlay, which goes on the stack.
    pub fn push_overlay(&mut self, new: Overlay)
        ensures
            final(self).overlay == Some(new),
            final(self).stack@ == (match old(self).overlay {
                Some(cur) => old(self).stack@.push(cur),
                None => old(self).stack@,
            }),
            final(self).nav_changes@ == with_push(old(self).nav_changes@, new),
    {
        if let Some(nav) = new.to_nav() {
            self.nav_changes.push(NavChange::Push(nav));
        }
        let cur = self.overlay.take();
        if let Some(c) = cur {
            self.stack.push(c);
        }
        self.overlay = Some(new);
    }

    /// Go back to the overlay under the current one (none when the stack is
    /// empty).
    pub fn pop_overlay(&mut self)
        ensures
            final(self).overlay == (if old(self).stack@.len() > 0 { Some(old(self).stack@.last()) } else { None }),
            final(self).stack@ == (if old(self).stack@.len() > 0 { old(self).stack@.drop_last() } else { old(self).stack@ }),
            final(self).nav_changes@ == (match old(self).overlay {
                Some(o) => if nav_of(o) is Some { old(self).nav_changes@.push(NavChange::Pop) } else { old(self).nav_changes@ },
                None => old(self).nav_changes@,
            }),
    {
        let is_nav = match &self.overlay {
            Some(o) => o.to_nav().is_some(),
            None => false,
        };
        if is_nav {
            self.nav_changes.push(NavChange::Pop);
        }
        self.overlay = self.stack.pop();
    }

    /// Make `new` the only overlay (entering a page from the main content).
    pub fn set_nav_overlay(&mut self, new: Overlay)
        ensures
            final(self).overlay == Some(new),
            final(self).stack@.len() == 0,
            final(self).nav_changes@ == (match nav_of(new) {
                Some(n) => old(self).nav_changes@.push(NavChange::Clear).push(NavChange::Push(n)),
                None => old(self).nav_changes@,
            }),
    {
        self.stack = Vec::new();
        if let Some(nav) = new.to_nav() {
            self.nav_changes.push(NavChange::Clear);
            self.nav_changes.push(NavChange::Push(nav));
        }
        self.overlay = Some(new);
    }

    /// Replace the top overlay (a new selection in it).
    pub fn set_top(&mut self, o: Overlay)
        ensures
            top_set(*old(self), *final(self), o),
    {
        self.overlay = Some(o);
    }

    /// Close every overlay.
    pub fn clear_overlays(&mut self)
        ensures
            final(self).overlay is None,
            final(self).stack@.len() == 0,
            final(self).nav_changes@ == old(self).nav_changes@.push(NavChange::Clear),
    {
        self.overlay = None;
        self.stack = Vec::new();
        self.nav_changes.push(NavChange::Clear);
    }
}

} // verus!
