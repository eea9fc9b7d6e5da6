//! Playlist state and loop modes.
//!
//! Dropping several files appends them (it never replaces the list); each clip
//! keeps its own horizontal and vertical flip; the loop mode cycles through
//! three states; `advance` is called when a clip ends and decides what plays next.

use vstd::prelude::*;

verus! {

/// How the player continues when a clip reaches its end.
#[derive(Debug, Clone, Copy, PartialEq, Eq, Structural)]
pub enum LoopMode {
    /// Play through the list once and stop after the last clip.
    Off,
    /// Repeat the current clip.
    One,
    /// Repeat the whole playlist.
    All,
}

impl LoopMode {
    /// The mode that follows `self` when the loop button is pressed.
    pub open spec fn following(self) -> LoopMode {
        match self {
            LoopMode::Off => LoopMode::One,
            LoopMode::One => LoopMode::All,
            LoopMode::All => LoopMode::Off,
        }
    }

    /// The text shown on the loop button.
    pub open spec fn label_text(self) -> Seq<char> {
        match self {
            LoopMode::Off => "Loop Off"@,
            LoopMode::One => "Loop One"@,
            LoopMode::All => "Loop All"@,
        }
    }

    /// The compact symbol of the mode.
    pub open spec fn glyph_text(self) -> Seq<char> {
        match self {
            LoopMode::Off => "→"@,
            LoopMode::One => "⟳1"@,
            LoopMode::All => "⟳"@,
        }
    }

    pub fn next(self) -> (r: Self)
        ensures
            r == self.following(),
    {
        match self {
            LoopMode::Off => LoopMode::One,
            LoopMode::One => LoopMode::All,
            LoopMode::All => LoopMode::Off,
        }
    }

    pub fn label(self) -> (r: &'static str)
        ensures
            r@ == self.label_text(),
    {
        match self {
            LoopMode::Off => "Loop Off",
            LoopMode::One => "Loop One",
            LoopMode::All => "Loop All",
        }
    }

    pub fn glyph(self) -> (r: &'static str)
        ensures
            r@ == self.glyph_text(),
    {
        match self {
            LoopMode::Off => "→",
            LoopMode::One => "⟳1",
            LoopMode::All => "⟳",
        }
    }
}

/// Pressing the loop button three times returns to the mode one started from,
/// and the three modes are all different from their successor.
pub proof fn lemma_loop_mode_cycle(m: LoopMode)
    ensures
        m.following().following().following() == m,
        m.following() != m,
        m.following().following() != m,
{
}


/// One clip of the playlist: its path and its own flips.
#[derive(Debug, Clone)]
pub struct PlaylistItem {
    pub path: String,
    pub flip_h: bool,
    pub flip_v: bool,
}

/// The item that dropping `path` adds: not flipped either way.
pub open spec fn fresh_item(path: String) -> PlaylistItem {
    PlaylistItem { path, flip_h: false, flip_v: false }
}

impl PlaylistItem {
    pub fn new(path: String) -> (r: Self)
        ensures
            r == fresh_item(path),
    {
        PlaylistItem { path, flip_h: false, flip_v: false }
    }
}

/// The playlist as the contracts see it: the clips in order, the index of the
/// current clip and the loop mode.
#[verifier::ext_equal]
pub struct PlaylistModel {
    pub items: Seq<PlaylistItem>,
    pub current: int,
    pub loop_mode: LoopMode,
}

impl PlaylistModel {
    /// The current index points at a clip, or the list is empty and the index is 0.
    pub open spec fn wf(self) -> bool {
        ||| 0 <= self.current < self.items.len()
        ||| (self.items.len() == 0 && self.current == 0)
    }

    pub open spec fn current_clip(self) -> Option<PlaylistItem> {
        if 0 <= self.current < self.items.len() {
            Some(self.items[self.current])
        } else {
            None
        }
    }

    pub open spec fn appended(self, paths: Seq<String>) -> PlaylistModel {
        PlaylistModel {
            items: self.items + paths.map_values(|p: String| fresh_item(p)),
            ..self
        }
    }

    pub open spec fn cleared(self) -> PlaylistModel {
        PlaylistModel { items: Seq::empty(), current: 0, ..self }
    }

    /// Removing index `idx`: out of range changes nothing; otherwise the clip
    /// goes and the current index is pulled back inside the shorter list
    /// (it is not shifted when an earlier clip goes).
    pub open spec fn removed(self, idx: int) -> PlaylistModel {
        if idx < 0 || idx >= self.items.len() {
            self
        } else {
            let items = self.items.remove(idx);
            let current = if items.len() == 0 {
                0
            } else if self.current >= items.len() {
                items.len() - 1
            } else {
                self.current
            };
            PlaylistModel { items, current, ..self }
        }
    }

    /// Exchange the clips at `a` and `b`; the current index follows its clip.
    pub open spec fn swapped(self, a: int, b: int) -> PlaylistModel {
        let items = self.items.update(a, self.items[b]).update(b, self.items[a]);
        let current = if self.current == a {
            b
        } else if self.current == b {
            a
        } else {
            self.current
        };
        PlaylistModel { items, current, ..self }
    }

    pub open spec fn can_move_up(self, idx: int) -> bool {
        0 < idx < self.items.len()
    }

    pub open spec fn moved_up(self, idx: int) -> PlaylistModel {
        if self.can_move_up(idx) {
            self.swapped(idx, idx - 1)
        } else {
            self
        }
    }

    pub open spec fn can_move_down(self, idx: int) -> bool {
        0 <= idx && idx + 1 < self.items.len()
    }

    pub open spec fn moved_down(self, idx: int) -> PlaylistModel {
        if self.can_move_down(idx) {
            self.swapped(idx, idx + 1)
        } else {
            self
        }
    }

    pub open spec fn selected(self, idx: int) -> PlaylistModel {
        if 0 <= idx < self.items.len() {
            PlaylistModel { current: idx, ..self }
        } else {
            self
        }
    }

    /// The index that plays after the current clip ends, if any.
    pub open spec fn next_index(self) -> Option<int> {
        if self.items.len() == 0 {
            None
        } else {
            match self.loop_mode {
                LoopMode::One => Some(self.current),
                LoopMode::All => Some((self.current + 1) % (self.items.len() as int)),
                LoopMode::Off => if self.current + 1 < self.items.len() {
                    Some(self.current + 1)
                } else {
                    None
                },
            }
        }
    }

    /// The playlist after `n` clips have ended one after the other.
    pub open spec fn advanced_times(self, n: nat) -> PlaylistModel
        decreases n,
    {
        if n == 0 {
            self
        } else {
            self.advanced().advanced_times((n - 1) as nat)
        }
    }

    /// The playlist after a clip ends: the current index moves to the next
    /// index when there is one.
    pub open spec fn advanced(self) -> PlaylistModel {
        match self.next_index() {
            Some(i) => PlaylistModel { current: i, ..self },
            None => self,
        }
    }
}

/// The clips, the index of the clip that plays, and the loop mode.
#[derive(Debug, Clone)]
pub struct Playlist {
    pub items: Vec<PlaylistItem>,
    pub current: usize,
    pub loop_mode: LoopMode,
}

impl View for Playlist {
    type V = PlaylistModel;

    open spec fn view(&self) -> PlaylistModel {
        PlaylistModel { items: self.items@, current: self.current as int, loop_mode: self.loop_mode }
    }
}

impl Default for Playlist {
    fn default() -> (r: Self)
        ensures
            r@.items.len() == 0,
            r@.current == 0,
            r@.loop_mode == LoopMode::Off,
    {
        Playlist { items: Vec::new(), current: 0, loop_mode: LoopMode::Off }
    }
}

impl Playlist {
    pub fn is_empty(&self) -> (r: bool)
        ensures
            r == (self@.items.len() == 0),
    {
        self.items.is_empty()
    }

    pub fn len(&self) -> (r: usize)
        ensures
            r == self@.items.len(),
    {
        self.items.len()
    }

    pub fn current_item(&self) -> (r: Option<&PlaylistItem>)
        ensures
            r matches Some(it) ==> self@.current_clip() == Some(*it),
            r is None ==> self@.current_clip() is None,
    {
        if self.current < self.items.len() {
            Some(&self.items[self.current])
        } else {
            None
        }
    }

    /// A mutable borrow of the current clip; what is written through it becomes
    /// the current clip of the playlist, and nothing else changes.
    pub fn current_item_mut(&mut self) -> (r: Option<&mut PlaylistItem>)
        ensures
            old(self)@.current_clip() is None <==> r is None,
            r is None ==> *final(self) == *old(self),
            r matches Some(it) ==> {
                &&& old(self)@.current_clip() == Some(*it)
                &&& final(self)@ == PlaylistModel {
                    items: old(self)@.items.update(old(self)@.current, *final(it)),
                    ..old(self)@
                }
            },
    {
        if self.current < self.items.len() {
            Some(&mut self.items[self.current])
        } else {
            None
        }
    }

    /// Appends the dropped paths (it never replaces the list) and tells whether
    /// the list went from empty to non-empty.
    pub fn append(&mut self, paths: Vec<String>) -> (r: bool)
        ensures
            final(self)@ == old(self)@.appended(paths@),
            r == (old(self)@.items.len() == 0 && paths@.len() > 0),
            old(self)@.wf() ==> final(self)@.wf(),
    {
        let was_empty = self.items.is_empty();
        let mut paths = paths;
        let ghost all = paths@;
        let ghost start = self.items@;
        let mut k: usize = 0;
        assert(all.len() == paths.len());
        while paths.len() > 0
            invariant
                k + paths@.len() == all.len(),
                all.len() <= usize::MAX,
                paths@ == all.subrange(k as int, all.len() as int),
                self.items@ == start + all.subrange(0, k as int).map_values(|p: String| fresh_item(p)),
                self.current == old(self).current,
                self.loop_mode == old(self).loop_mode,
            decreases paths@.len(),
        {
            let p = paths.remove(0);
            self.items.push(PlaylistItem::new(p));
            proof {
                assert(all.subrange(0, k + 1).map_values(|p: String| fresh_item(p)) =~= all.subrange(
                    0,
                    k as int,
                ).map_values(|p: String| fresh_item(p)).push(fresh_item(all[k as int])));
            }
            k = k + 1;
            assert(paths@ =~= all.subrange(k as int, all.len() as int));
        }
        assert(all.subrange(0, all.len() as int) =~= all);
        was_empty && !self.items.is_empty()
    }

    pub fn clear(&mut self)
        ensures
            final(self)@ == old(self)@.cleared(),
    {
        self.items.clear();
        self.current = 0;
    }

    pub fn remove(&mut self, idx: usize)
        ensures
            final(self)@ == old(self)@.removed(idx as int),
            old(self)@.wf() ==> final(self)@.wf(),
    {
        if idx >= self.items.len() {
            return;
        }
        self.items.remove(idx);
        if self.items.is_empty() {
            self.current = 0;
        } else if self.current >= self.items.len() {
            self.current = self.items.len() - 1;
        }
    }

    pub fn move_up(&mut self, idx: usize) -> (r: bool)
        ensures
            r == old(self)@.can_move_up(idx as int),
            final(self)@ == old(self)@.moved_up(idx as int),
            old(self)@.wf() ==> final(self)@.wf(),
    {
        if idx == 0 || idx >= self.items.len() {
            return false;
        }
        let ghost before = self.items@;
        let it = self.items.remove(idx);
        self.items.insert(idx - 1, it);
        assert(self.items@ =~= before.update(idx as int, before[idx - 1]).update(idx - 1, before[idx as int]));
        if self.current == idx {
            self.current = idx - 1;
        } else if self.current == idx - 1 {
            self.current = idx;
        }
        true
    }

    pub fn move_down(&mut self, idx: usize) -> (r: bool)
        ensures
            r == old(self)@.can_move_down(idx as int),
            final(self)@ == old(self)@.moved_down(idx as int),
            old(self)@.wf() ==> final(self)@.wf(),
    {
        if idx >= self.items.len() || idx + 1 >= self.items.len() {
            return false;
        }
        let ghost before = self.items@;
        let it = self.items.remove(idx + 1);
        self.items.insert(idx, it);
        assert(self.items@ =~= before.update(idx as int, before[idx + 1]).update(idx + 1, before[idx as int]));
        if self.current == idx {
            self.current = idx + 1;
        } else if self.current == idx + 1 {
            self.current = idx;
        }
        true
    }

    pub fn select(&mut self, idx: usize) -> (r: bool)
        ensures
            r == (idx < old(self)@.items.len()),
            final(self)@ == old(self)@.selected(idx as int),
            old(self)@.wf() ==> final(self)@.wf(),
    {
        if idx < self.items.len() {
            self.current = idx;
            true
        } else {
            false
        }
    }

    /// Called when the current clip ends: returns the index to play next
    /// (`None`: stop) and moves the current index there.
    pub fn advance(&mut self) -> (r: Option<usize>)
        requires
            old(self)@.items.len() > 0 && old(self).loop_mode != LoopMode::One ==> old(self).current
                < usize::MAX,
        ensures
            r matches Some(i) ==> old(self)@.next_index() == Some(i as int),
            r is None ==> old(self)@.next_index() is None,
            final(self)@ == old(self)@.advanced(),
            old(self)@.wf() ==> final(self)@.wf(),
    {
        if self.items.is_empty() {
            return None;
        }
        match self.loop_mode {
            LoopMode::One => Some(self.current),
            LoopMode::All => {
                self.current = (self.current + 1) % self.items.len();
                Some(self.current)
            },
            LoopMode::Off => {
                if self.current + 1 < self.items.len() {
                    self.current += 1;
                    Some(self.current)
                } else {
                    None
                }
            },
        }
    }
}


// ── Laws of the playlist ──

/// Moving a clip up and then moving it back down restores the playlist,
/// current index included; and the other way round.
pub proof fn lemma_move_up_down_inverse(pl: PlaylistModel, idx: int)
    ensures
        pl.can_move_up(idx) ==> pl.moved_up(idx).moved_down(idx - 1) == pl,
        pl.can_move_down(idx) ==> pl.moved_down(idx).moved_up(idx + 1) == pl,
{
    if pl.can_move_up(idx) {
        assert(pl.moved_up(idx).moved_down(idx - 1).items =~= pl.items);
    }
    if pl.can_move_down(idx) {
        assert(pl.moved_down(idx).moved_up(idx + 1).items =~= pl.items);
    }
}

/// Moving a clip keeps the same clip current, and keeps the clips and the
/// number of clips (only their order changes).
pub proof fn lemma_move_keeps_current_clip(pl: PlaylistModel, idx: int)
    requires
        pl.wf(),
    ensures
        pl.moved_up(idx).current_clip() == pl.current_clip(),
        pl.moved_down(idx).current_clip() == pl.current_clip(),
        pl.moved_up(idx).items.len() == pl.items.len(),
        pl.moved_down(idx).items.len() == pl.items.len(),
        pl.moved_up(idx).items.to_multiset() == pl.items.to_multiset(),
        pl.moved_down(idx).items.to_multiset() == pl.items.to_multiset(),
{
    if pl.can_move_up(idx) {
        lemma_swap_same_multiset(pl.items, idx, idx - 1);
    }
    if pl.can_move_down(idx) {
        lemma_swap_same_multiset(pl.items, idx, idx + 1);
    }
}

proof fn lemma_swap_same_multiset(s: Seq<PlaylistItem>, a: int, b: int)
    requires
        0 <= a < s.len(),
        0 <= b < s.len(),
    ensures
        s.update(a, s[b]).update(b, s[a]).to_multiset() == s.to_multiset(),
{
    broadcast use vstd::seq_lib::group_to_multiset_ensures;
    let t = s.update(a, s[b]);
    assert(t.to_multiset() == s.to_multiset().remove(s[a]).insert(s[b]));
    assert(t.update(b, s[a]).to_multiset() == t.to_multiset().remove(t[b]).insert(s[a]));
    if a == b {
        assert(t.update(b, s[a]) =~= s);
    }
}

/// With "Loop One" and a clip loaded, the end of a clip plays the same clip
/// again and leaves the playlist as it was.
pub proof fn lemma_loop_one_repeats(pl: PlaylistModel)
    requires
        pl.items.len() > 0,
        pl.loop_mode == LoopMode::One,
    ensures
        pl.next_index() == Some(pl.current),
        pl.advanced() == pl,
{
}

/// With "Loop Off" the current index only moves forward, one clip at a time,
/// and playback stops exactly when the last clip ends.
pub proof fn lemma_loop_off_stops_at_end(pl: PlaylistModel)
    requires
        pl.wf(),
        pl.items.len() > 0,
        pl.loop_mode == LoopMode::Off,
    ensures
        pl.next_index() is None <==> pl.current == pl.items.len() - 1,
        pl.next_index() matches Some(i) ==> i == pl.current + 1,
        pl.advanced().current >= pl.current,
{
}

/// With "Loop All", after as many clip ends as there are clips, the playlist is
/// back at the clip it started from; in between it visits the clips in order,
/// wrapping around after the last one.
pub proof fn lemma_loop_all_cycles(pl: PlaylistModel)
    requires
        pl.wf(),
        pl.items.len() > 0,
        pl.loop_mode == LoopMode::All,
    ensures
        pl.advanced_times(pl.items.len()) == pl,
        forall|k: nat| #[trigger] pl.advanced_times(k).current == (pl.current + k) % (pl.items.len() as int),
{
    assert forall|k: nat| #[trigger] pl.advanced_times(k).current == (pl.current + k) % (pl.items.len() as int) by {
        lemma_loop_all_after(pl, k);
    }
    lemma_loop_all_after(pl, pl.items.len());
    vstd::arithmetic::div_mod::lemma_add_mod_noop_right(pl.current, pl.items.len() as int, pl.items.len() as int);
    vstd::arithmetic::div_mod::lemma_mod_self_0(pl.items.len() as int);
    vstd::arithmetic::div_mod::lemma_small_mod(pl.current as nat, pl.items.len());
    assert(pl.advanced_times(pl.items.len()) =~= pl);
}

proof fn lemma_loop_all_after(pl: PlaylistModel, k: nat)
    requires
        pl.wf(),
        pl.items.len() > 0,
        pl.loop_mode == LoopMode::All,
    ensures
        pl.advanced_times(k).current == (pl.current + k) % (pl.items.len() as int),
        pl.advanced_times(k).items == pl.items,
        pl.advanced_times(k).loop_mode == pl.loop_mode,
    decreases k,
{
    let n = pl.items.len() as int;
    if k == 0 {
        vstd::arithmetic::div_mod::lemma_small_mod(pl.current as nat, n as nat);
    } else {
        let next = pl.advanced();
        vstd::arithmetic::div_mod::lemma_mod_bound(pl.current + 1, n);
        lemma_loop_all_after(next, (k - 1) as nat);
        vstd::arithmetic::div_mod::lemma_add_mod_noop(pl.current + 1, k - 1, n);
        vstd::arithmetic::div_mod::lemma_add_mod_noop_right((pl.current + 1) % n, k - 1, n);
        vstd::arithmetic::div_mod::lemma_mod_twice(pl.current + 1, n);
    }
}

/// Appending clips never changes the clip that is current, and keeps the
/// existing clips in front, in their order.
pub proof fn lemma_append_keeps_current(pl: PlaylistModel, paths: Seq<String>)
    requires
        pl.wf(),
    ensures
        pl.items.len() > 0 ==> pl.appended(paths).current_clip() == pl.current_clip(),
        pl.appended(paths).items.subrange(0, pl.items.len() as int) == pl.items,
        pl.appended(paths).items.len() == pl.items.len() + paths.len(),
{
    assert(pl.appended(paths).items.subrange(0, pl.items.len() as int) =~= pl.items);
}

/// Removing an index inside the list shortens it by exactly that clip; an
/// index outside the list changes nothing; removing a clip after the current
/// one keeps the current clip playing.
pub proof fn lemma_remove_shortens(pl: PlaylistModel, idx: int)
    ensures
        0 <= idx < pl.items.len() ==> pl.removed(idx).items == pl.items.remove(idx)
            && pl.removed(idx).items.len() == pl.items.len() - 1,
        !(0 <= idx < pl.items.len()) ==> pl.removed(idx) == pl,
        pl.wf() && pl.current < idx < pl.items.len() ==> pl.removed(idx).current_clip()
            == pl.current_clip(),
{
}

/// Removing a clip never moves the current index while it still points into
/// the shorter list: the clip that now stands at that index becomes current
/// (after removing the current clip, the one that followed it). Only when the
/// index falls off the end is it pulled back to the new last clip, and an
/// emptied list goes back to index 0.
pub proof fn lemma_remove_keeps_index(pl: PlaylistModel, idx: int)
    requires
        pl.wf(),
        0 <= idx < pl.items.len(),
    ensures
        pl.removed(idx).items.len() == pl.items.len() - 1,
        pl.current < pl.items.len() - 1 ==> pl.removed(idx).current == pl.current,
        pl.current == pl.items.len() - 1 && pl.items.len() > 1 ==> pl.removed(idx).current == pl.items.len() - 2,
        pl.items.len() == 1 ==> pl.removed(idx).current == 0,
        pl.removed(idx).loop_mode == pl.loop_mode,
        forall|j: int| 0 <= j < idx ==> #[trigger] pl.removed(idx).items[j] == pl.items[j],
        forall|j: int| idx <= j < pl.items.len() - 1 ==> #[trigger] pl.removed(idx).items[j] == pl.items[j + 1],
{
}

// ── Video files ──

/// Text equality of two string slices.
fn str_eq(a: &str, b: &str) -> (r: bool)
    ensures
        r == (a@ == b@),
{
    a.to_owned() == b.to_owned()
}

/// The lower-case extensions of the video formats the player opens.
pub open spec fn is_video_extension_text(lower: Seq<char>) -> bool {
    ||| lower == "mp4"@
    ||| lower == "mov"@
    ||| lower == "m4v"@
    ||| lower == "qt"@
    ||| lower == "mkv"@
    ||| lower == "avi"@
    ||| lower == "mpg"@
    ||| lower == "mpeg"@
    ||| lower == "3gp"@
    ||| lower == "webm"@
}

/// The lower-case form of a string, as `str::to_lowercase` computes it.
pub uninterp spec fn lowercase(s: Seq<char>) -> Seq<char>;

/// Every character of `s` is ASCII.
pub open spec fn is_ascii_text(s: Seq<char>) -> bool {
    forall|i: int| 0 <= i < s.len() ==> (#[trigger] s[i] as u32) < 128
}

/// ASCII lower case of one character: 'A'..='Z' become 'a'..='z', every other
/// character stays.
pub open spec fn ascii_lower_char(c: char) -> char {
    if 'A' <= c && c <= 'Z' {
        ((c as u32) + 32) as char
    } else {
        c
    }
}

/// ASCII lower case of a text, character by character.
pub open spec fn ascii_lower(s: Seq<char>) -> Seq<char> {
    s.map_values(|c: char| ascii_lower_char(c))
}

/// `str::to_lowercase`: the result is named `lowercase` of the argument; the
/// Unicode case mapping itself is not written out here. Of ASCII text the
/// documented mapping is stated: each 'A'..='Z' becomes the matching
/// 'a'..='z' and every other character stays as it is.
#[verifier::external_body]
fn to_lowercase(s: &str) -> (r: String)
    ensures
        r@ == lowercase(s@),
        is_ascii_text(s@) ==> r@ == ascii_lower(s@),
{
    s.to_lowercase()
}

/// `std::path::Path::extension` followed by `OsStr::to_str`. Claimed of the
/// result:
/// - an extension is text of the path that stands right after a '.' and holds
///   no '.'; it holds no '/' either where the path has no backslash (a '/' is
///   a separator everywhere except in a Windows verbatim path, which starts
///   with backslashes);
/// - for a path whose file name is plain on every platform (`simple_path`),
///   the extension is, as documented, the part of the file name after its
///   final '.', and there is none when the name has no '.' past its first
///   character;
/// - for any path whose last '.', once trailing "/" and "/." are dropped
///   (`without_trailing_dirs`: `Path::components` normalises a trailing
///   slash and "." components away, as documented), stands after its last
///   '/', '\\' and ':', not right after that boundary, in a last component
///   other than "..", and that does not start with two separators (a UNC,
///   device or verbatim prefix on Windows), the extension is the text after
///   that '.' (`dotted_last_component`): on every platform the final
///   component then ends in that text and has a character before the '.'.
/// For other paths (a final '.', a trailing backslash, a '.' in a directory
/// name only, UNC or verbatim prefixes) the result is left unsaid, since
/// separators and prefixes differ between platforms.
#[verifier::external_body]
fn path_extension(path: &str) -> (r: Option<String>)
    ensures
        r matches Some(e) ==> extension_at(path@, e@),
        r matches Some(e) ==> (!path@.contains('\\') ==> !e@.contains('/')),
        simple_path(path@) ==> opt_text(r) == extension_of_name(file_name_text(path@)),
        dotted_last_component(without_trailing_dirs(path@)) ==> opt_text(r) == Some(
            text_after_last_dot(without_trailing_dirs(path@)),
        ),
{
    std::path::Path::new(path).extension().and_then(|e| e.to_str()).map(|e| e.to_string())
}

/// The path without its trailing '/' characters and trailing "/."
/// components, which name the same file.
pub open spec fn without_trailing_dirs(path: Seq<char>) -> Seq<char>
    decreases path.len(),
{
    if path.len() > 0 && path.last() == '/' {
        without_trailing_dirs(path.drop_last())
    } else if path.len() >= 2 && path.last() == '.' && path[path.len() - 2] == '/' {
        without_trailing_dirs(path.drop_last())
    } else {
        path
    }
}

/// A path separator on some platform.
pub open spec fn is_separator(c: char) -> bool {
    c == '/' || c == '\\'
}

/// The index of the last '/', '\\' or ':' of the path, or -1 when it has none.
pub open spec fn last_boundary(path: Seq<char>) -> int {
    let a = last_index_of(path, '/');
    let b = last_index_of(path, '\\');
    let c = last_index_of(path, ':');
    let ab = if a > b { a } else { b };
    if ab > c { ab } else { c }
}

/// The text after the last '.' of the path.
pub open spec fn text_after_last_dot(path: Seq<char>) -> Seq<char> {
    path.subrange(last_index_of(path, '.') + 1, path.len() as int)
}

/// The path's last '.' stands in its last component, after at least one
/// other character of it, that component is not "..", and the path does not
/// start with two separators.
pub open spec fn dotted_last_component(path: Seq<char>) -> bool {
    let d = last_index_of(path, '.');
    let b = last_boundary(path);
    &&& d > b + 1
    &&& !(path.len() >= 2 && is_separator(path[0]) && is_separator(path[1]))
    &&& path.subrange(b + 1, path.len() as int) != ".."@
}

/// The text of an optional string.
pub open spec fn opt_text(o: Option<String>) -> Option<Seq<char>> {
    match o {
        Some(s) => Some(s@),
        None => None,
    }
}

/// The index of the last `c` in `s`, or -1 when `s` holds none.
pub open spec fn last_index_of(s: Seq<char>, c: char) -> int
    decreases s.len(),
{
    if s.len() == 0 {
        -1
    } else if s.last() == c {
        s.len() - 1
    } else {
        last_index_of(s.drop_last(), c)
    }
}

/// The text after the last '/' of the path (all of it when there is none).
pub open spec fn file_name_text(path: Seq<char>) -> Seq<char> {
    path.subrange(last_index_of(path, '/') + 1, path.len() as int)
}

/// A path whose last component reads the same on every platform: no
/// backslash, no drive colon, no leading "//", and a final component after
/// the last '/' that is neither empty nor "." nor "..".
pub open spec fn simple_path(path: Seq<char>) -> bool {
    &&& !path.contains('\\')
    &&& !path.contains(':')
    &&& !(path.len() >= 2 && path[0] == '/' && path[1] == '/')
    &&& file_name_text(path).len() > 0
    &&& file_name_text(path) != "."@
    &&& file_name_text(path) != ".."@
}

/// The extension of a file name: the text after its final '.', or none when
/// the name has no '.' past its first character.
pub open spec fn extension_of_name(name: Seq<char>) -> Option<Seq<char>> {
    let k = last_index_of(name, '.');
    if k > 0 {
        Some(name.subrange(k + 1, name.len() as int))
    } else {
        None
    }
}

/// `ext` stands in `path` right after a '.', and holds no '.'.
pub open spec fn extension_at(path: Seq<char>, ext: Seq<char>) -> bool {
    &&& !ext.contains('.')
    &&& exists|i: int|
        1 <= i && i + ext.len() <= path.len() && path[i - 1] == '.' && #[trigger] path.subrange(
            i,
            i + ext.len(),
        ) == ext
}

/// The supported video extensions are exactly these ten lower-case texts:
/// mp4, mov, m4v, qt, mkv, avi, mpg, mpeg, 3gp and webm.
pub proof fn lemma_video_extensions_exact(e: Seq<char>)
    ensures
        is_video_extension_text(e) <==> (e == "mp4"@ || e == "mov"@ || e == "m4v"@ || e == "qt"@ || e
            == "mkv"@ || e == "avi"@ || e == "mpg"@ || e == "mpeg"@ || e == "3gp"@ || e == "webm"@),
        is_video_extension_text("mp4"@),
        is_video_extension_text("mov"@),
        is_video_extension_text("m4v"@),
        is_video_extension_text("qt"@),
        is_video_extension_text("mkv"@),
        is_video_extension_text("avi"@),
        is_video_extension_text("mpg"@),
        is_video_extension_text("mpeg"@),
        is_video_extension_text("3gp"@),
        is_video_extension_text("webm"@),
{
}

/// Whether an extension that is already lower case names a supported video format.
pub fn is_supported_extension(lower: &str) -> (r: bool)
    ensures
        r == is_video_extension_text(lower@),
{
    str_eq(lower, "mp4") || str_eq(lower, "mov") || str_eq(lower, "m4v") || str_eq(lower, "qt")
        || str_eq(lower, "mkv") || str_eq(lower, "avi") || str_eq(lower, "mpg") || str_eq(
        lower,
        "mpeg",
    ) || str_eq(lower, "3gp") || str_eq(lower, "webm")
}

/// Whether a file extension, in any case, names a supported video format.
pub fn is_video_extension(ext: &str) -> (r: bool)
    ensures
        r == is_video_extension_text(lowercase(ext@)),
        is_ascii_text(ext@) ==> r == is_video_extension_text(ascii_lower(ext@)),
{
    let lower = to_lowercase(ext);
    is_supported_extension(lower.as_str())
}

/// Whether a simple path names a video file: its file name has an extension
/// that, lower-cased, is a supported one.
pub open spec fn is_video_name(path: Seq<char>) -> bool {
    match extension_of_name(file_name_text(path)) {
        Some(e) => is_video_extension_text(lowercase(e)),
        None => false,
    }
}

/// Whether the path names a file of a supported video format, judged by its
/// extension: the text after the last '.' of the file name, in any case. A
/// trailing '/' does not change the file name.
pub fn is_video_file(path: &str) -> (r: bool)
    ensures
        simple_path(path@) ==> r == is_video_name(path@),
        dotted_last_component(without_trailing_dirs(path@)) ==> r == is_video_extension_text(
            lowercase(text_after_last_dot(without_trailing_dirs(path@))),
        ),
        dotted_last_component(without_trailing_dirs(path@)) && is_ascii_text(
            text_after_last_dot(without_trailing_dirs(path@)),
        ) ==> r == is_video_extension_text(ascii_lower(text_after_last_dot(without_trailing_dirs(path@)))),
        r ==> exists|e: Seq<char>| #[trigger] extension_at(path@, e) && is_video_extension_text(lowercase(e)),
        !path@.contains('.') ==> !r,
{
    match path_extension(path) {
        Some(ext) => {
            let r = is_video_extension(ext.as_str());
            proof {
                if !path@.contains('.') {
                    let i = choose|i: int|
                        1 <= i && i + ext@.len() <= path@.len() && path@[i - 1] == '.'
                            && #[trigger] path@.subrange(i, i + ext@.len()) == ext@;
                    assert(path@[i - 1] == '.');
                }
            }
            r
        },
        None => false,
    }
}

} // verus!
