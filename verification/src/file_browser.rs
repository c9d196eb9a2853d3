//! The file browser: the entries of one directory in display order, with a
//! cursor and a scroll position.
//!
//! Reading a directory is left to the caller; what is shown of a listing, and
//! in which order, is decided here.

use crate::explorer::{adjusted_scroll, scroll_to_show};
use crate::text::{lemma_lex_le_total, lemma_lex_le_transitive, lex_le, lowercased, same_text,
    text_le, to_lowercase};
use vstd::prelude::*;

verus! {

/// One entry of a directory.
#[derive(Debug)]
pub struct FileEntry {
    /// Path of the entry.
    pub path: String,
    /// Name shown for the entry.
    pub name: String,
    /// Whether the entry is a directory, or a link to one.
    pub is_dir: bool,
    /// Whether the entry is a symbolic link.
    pub is_symlink: bool,
}

/// Whether a name marks its entry as hidden: it starts with a dot.
pub open spec fn is_hidden(name: Seq<char>) -> bool {
    name.len() > 0 && name[0] == '.'
}

/// Place of an entry among the three classes of the display order: the link
/// to the parent directory, directories, everything else.
pub open spec fn entry_class(entry: FileEntry) -> int {
    if entry.name@ == ".."@ {
        0
    } else if entry.is_dir {
        1
    } else {
        2
    }
}

/// Whether `a` may stand before `b` in the display order: by class first,
/// then by name in lower case.
pub open spec fn entry_le(a: FileEntry, b: FileEntry) -> bool {
    entry_class(a) < entry_class(b) || (entry_class(a) == entry_class(b) && lex_le(
        lowercased(a.name@),
        lowercased(b.name@),
    ))
}

/// Whether every entry may stand before all entries after it.
pub open spec fn in_display_order(entries: Seq<FileEntry>) -> bool {
    forall|i: int, j: int| 0 <= i < j < entries.len() ==> entry_le(entries[i], entries[j])
}

/// The entries of a listing that are shown: all of them, or all but the
/// hidden ones.
pub open spec fn shown_entries(listing: Seq<FileEntry>, show_hidden: bool) -> Seq<FileEntry>
    decreases listing.len(),
{
    if listing.len() == 0 {
        Seq::empty()
    } else {
        let before = shown_entries(listing.drop_last(), show_hidden);
        if show_hidden || !is_hidden(listing.last().name@) {
            before.push(listing.last())
        } else {
            before
        }
    }
}

/// Of two entries one may stand before the other.
pub proof fn lemma_entry_le_total(a: FileEntry, b: FileEntry)
    ensures
        entry_le(a, b) || entry_le(b, a),
{
    lemma_lex_le_total(lowercased(a.name@), lowercased(b.name@));
}

/// The display order is transitive.
pub proof fn lemma_entry_le_transitive(a: FileEntry, b: FileEntry, c: FileEntry)
    requires
        entry_le(a, b),
        entry_le(b, c),
    ensures
        entry_le(a, c),
{
    if entry_class(a) == entry_class(b) && entry_class(b) == entry_class(c) {
        lemma_lex_le_transitive(
            lowercased(a.name@),
            lowercased(b.name@),
            lowercased(c.name@),
        );
    }
}

/// Checks whether `a` may stand before `b` in the display order.
fn entry_before(a: &FileEntry, b: &FileEntry) -> (r: bool)
    ensures
        r == entry_le(*a, *b),
{
    let class_a: u8 = if same_text(a.name.as_str(), "..") {
        0
    } else if a.is_dir {
        1
    } else {
        2
    };
    let class_b: u8 = if same_text(b.name.as_str(), "..") {
        0
    } else if b.is_dir {
        1
    } else {
        2
    };
    if class_a != class_b {
        class_a < class_b
    } else {
        let lower_a = to_lowercase(a.name.as_str());
        let lower_b = to_lowercase(b.name.as_str());
        text_le(lower_a.as_str(), lower_b.as_str())
    }
}

/// Checks whether a name starts with a dot.
fn hidden(name: &str) -> (r: bool)
    ensures
        r == is_hidden(name@),
{
    name.unicode_len() > 0 && name.get_char(0) == '.'
}

/// Puts `entry` into `entries` where the display order wants it, before any
/// entry that it may stand before.
fn insert_in_order(entries: &mut Vec<FileEntry>, entry: FileEntry)
    requires
        in_display_order(old(entries)@),
    ensures
        in_display_order(final(entries)@),
        final(entries)@.to_multiset() == old(entries)@.to_multiset().insert(entry),
{
    let n = entries.len();
    let mut p: usize = 0;
    while p < n && !entry_before(&entry, &entries[p])
        invariant
            n == entries@.len(),
            p <= n,
            *entries == *old(entries),
            forall|k: int| 0 <= k < p ==> !entry_le(entry, (#[trigger] entries@[k])),
        decreases n - p,
    {
        p += 1;
    }
    proof {
        let before = entries@;
        let after = before.insert(p as int, entry);
        vstd::seq_lib::to_multiset_insert(before, p as int, entry);
        assert forall|i: int, j: int| 0 <= i < j < after.len() implies entry_le(
            after[i],
            after[j],
        ) by {
            if j == p {
                // after[i] is an old entry before the place: `entry` may not
                // stand before it, so it may stand before `entry`.
                lemma_entry_le_total(entry, before[i]);
            } else if i == p {
                // after[j] is an old entry at or after the place.
                if j - 1 > p {
                    lemma_entry_le_transitive(entry, before[p as int], before[j - 1]);
                }
            } else {
            }
        }
    }
    entries.insert(p, entry);
}

/// What the caller has to do after an entry was selected.
#[derive(Debug)]
pub enum Selection {
    /// Nothing: there was no entry under the cursor.
    Nothing,
    /// The browser moved into a directory, whose entries have to be read.
    Entered,
    /// The file with this path was chosen.
    File(String),
}

/// State of the file browser.
#[derive(Debug)]
pub struct FileBrowserState {
    /// Directory whose entries are shown.
    pub current_dir: String,
    /// Entries in display order.
    pub entries: Vec<FileEntry>,
    /// Index of the entry under the cursor.
    pub cursor: usize,
    /// Index of the first entry on screen.
    pub scroll: usize,
    /// Whether hidden entries are shown.
    pub show_hidden: bool,
}

impl FileBrowserState {
    /// A browser for `current_dir` that shows no entries yet.
    pub fn new(current_dir: String) -> (r: FileBrowserState)
        ensures
            r.current_dir == current_dir,
            r.entries@.len() == 0,
            r.cursor == 0,
            r.scroll == 0,
            !r.show_hidden,
    {
        FileBrowserState {
            current_dir,
            entries: Vec::new(),
            cursor: 0,
            scroll: 0,
            show_hidden: false,
        }
    }

    /// Takes the listing of the current directory. The link to the parent
    /// directory, if one is given, and the shown entries of the listing are
    /// put in display order; cursor and scroll start from the top.
    pub fn load_entries(&mut self, parent: Option<FileEntry>, listing: Vec<FileEntry>)
        ensures
            in_display_order(final(self).entries@),
            final(self).entries@.to_multiset() == match parent {
                Some(p) => shown_entries(listing@, old(self).show_hidden).to_multiset().insert(p),
                None => shown_entries(listing@, old(self).show_hidden).to_multiset(),
            },
            final(self).cursor == 0,
            final(self).scroll == 0,
            final(self).current_dir == old(self).current_dir,
            final(self).show_hidden == old(self).show_hidden,
    {
        broadcast use vstd::multiset::group_multiset_axioms;

        let show_hidden = self.show_hidden;
        let mut rest = listing;
        let mut entries: Vec<FileEntry> = Vec::new();
        proof {
            entries@.to_multiset_ensures();
        }
        while rest.len() > 0
            invariant
                in_display_order(entries@),
                entries@.to_multiset().add(shown_entries(rest@, show_hidden).to_multiset())
                    == shown_entries(listing@, show_hidden).to_multiset(),
            decreases rest.len(),
        {
            let entry = rest.pop().unwrap();
            proof {
                let kept = shown_entries(rest@, show_hidden);
                if show_hidden || !is_hidden(entry.name@) {
                    vstd::seq_lib::to_multiset_build(kept, entry);
                }
            }
            if show_hidden || !hidden(entry.name.as_str()) {
                insert_in_order(&mut entries, entry);
            }
        }
        proof {
            shown_entries(rest@, show_hidden).to_multiset_ensures();
        }
        match parent {
            Some(p) => insert_in_order(&mut entries, p),
            None => {},
        }
        self.entries = entries;
        self.cursor = 0;
        self.scroll = 0;
    }

    /// Moves the cursor up one entry, if it is not on the first.
    pub fn cursor_up(&mut self)
        ensures
            *final(self) == (FileBrowserState {
                cursor: if old(self).cursor > 0 {
                    (old(self).cursor - 1) as usize
                } else {
                    0
                },
                ..*old(self)
            }),
    {
        if self.cursor > 0 {
            self.cursor -= 1;
        }
    }

    /// Moves the cursor down one entry, if there is an entry below it.
    pub fn cursor_down(&mut self)
        ensures
            *final(self) == (FileBrowserState {
                cursor: if old(self).cursor + 1 < old(self).entries@.len() {
                    (old(self).cursor + 1) as usize
                } else {
                    old(self).cursor
                },
                ..*old(self)
            }),
    {
        if self.cursor < self.entries.len() && self.cursor + 1 < self.entries.len() {
            self.cursor += 1;
        }
    }

    /// The entry under the cursor, if the cursor is on one.
    pub fn current_entry(&self) -> (r: Option<&FileEntry>)
        ensures
            match r {
                Some(e) => self.cursor < self.entries@.len() && *e == self.entries@[self.cursor as int],
                None => self.cursor >= self.entries@.len(),
            },
    {
        if self.cursor < self.entries.len() {
            Some(&self.entries[self.cursor])
        } else {
            None
        }
    }

    /// Selects the entry under the cursor. A directory becomes the current
    /// directory and its entries have to be read; until then the browser
    /// shows none. A file is handed back. Without an entry under the cursor
    /// nothing happens.
    pub fn select_current(&mut self) -> (r: Selection)
        ensures
            old(self).cursor >= old(self).entries@.len() ==> r is Nothing && *final(self) == *old(
                self,
            ),
            old(self).cursor < old(self).entries@.len() ==> {
                let entry = old(self).entries@[old(self).cursor as int];
                if entry.is_dir {
                    &&& r is Entered
                    &&& final(self).current_dir@ == entry.path@
                    &&& final(self).entries@.len() == 0
                    &&& final(self).cursor == 0
                    &&& final(self).scroll == 0
                    &&& final(self).show_hidden == old(self).show_hidden
                } else {
                    &&& r matches Selection::File(path)
                    &&& path@ == entry.path@
                    &&& *final(self) == *old(self)
                }
            },
    {
        if self.cursor >= self.entries.len() {
            return Selection::Nothing;
        }
        let path = self.entries[self.cursor].path.clone();
        if self.entries[self.cursor].is_dir {
            self.current_dir = path;
            self.entries = Vec::new();
            self.cursor = 0;
            self.scroll = 0;
            Selection::Entered
        } else {
            Selection::File(path)
        }
    }

    /// Moves to the parent directory, if there is one. Its entries have to
    /// be read; until then the browser shows none. Returns whether the
    /// browser moved.
    pub fn go_to_parent(&mut self, parent: Option<String>) -> (r: bool)
        ensures
            r == parent is Some,
            match parent {
                Some(p) => {
                    &&& final(self).current_dir == p
                    &&& final(self).entries@.len() == 0
                    &&& final(self).cursor == 0
                    &&& final(self).scroll == 0
                    &&& final(self).show_hidden == old(self).show_hidden
                },
                None => *final(self) == *old(self),
            },
    {
        match parent {
            Some(p) => {
                self.current_dir = p;
                self.entries = Vec::new();
                self.cursor = 0;
                self.scroll = 0;
                true
            },
            None => false,
        }
    }

    /// Shows hidden entries if they are not shown and hides them if they
    /// are. The entries have to be read again.
    pub fn toggle_hidden(&mut self)
        ensures
            *final(self) == (FileBrowserState {
                show_hidden: !old(self).show_hidden,
                ..*old(self)
            }),
    {
        self.show_hidden = !self.show_hidden;
    }

    /// Moves the scroll offset as little as needed to bring the cursor on
    /// screen.
    pub fn adjust_scroll(&mut self, viewport_height: usize)
        ensures
            *final(self) == (FileBrowserState {
                scroll: scroll_to_show(old(self).scroll, old(self).cursor, viewport_height),
                ..*old(self)
            }),
    {
        self.scroll = adjusted_scroll(self.scroll, self.cursor, viewport_height);
    }
}

} // verus!
