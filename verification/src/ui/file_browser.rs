use crate::app::selection::scrolled_to;
use crate::paths::{file_name_of, parent_of, path_file_name, path_parent};
use crate::text::{compare_str, lex_le, lowercase_of, str_eq, to_lowercase};
use std::path::PathBuf;
use vstd::prelude::*;
use vstd::string::StrSliceExecFns;
use vstd::string::StringExecFns;

verus! {

/// One entry of a directory as the browser lists it.
#[derive(Debug, Clone)]
pub struct DirEntry {
    pub name: String,
    pub path: PathBuf,
    pub is_dir: bool,
}

/// Names that begin with a dot are not listed.
pub open spec fn is_hidden(name: Seq<char>) -> bool {
    name.len() > 0 && name[0] == '.'
}

/// Entries are ordered by their names in lower case.
pub open spec fn sort_key(entry: DirEntry) -> Seq<char> {
    lowercase_of(entry.name@)
}

/// `sorted` with `entry` put behind the last entry that does not come after
/// it: among entries with the same key the newcomer is last.
pub open spec fn insert_by_name(sorted: Seq<DirEntry>, entry: DirEntry) -> Seq<DirEntry>
    decreases sorted.len(),
{
    if sorted.len() == 0 {
        seq![entry]
    } else if lex_le(sort_key(sorted.last()), sort_key(entry)) {
        sorted.push(entry)
    } else {
        insert_by_name(sorted.drop_last(), entry).push(sorted.last())
    }
}

/// The entries in the order of their keys, entries with the same key in the
/// order in which they came.
pub open spec fn sorted_by_name(entries: Seq<DirEntry>) -> Seq<DirEntry>
    decreases entries.len(),
{
    if entries.len() == 0 {
        entries
    } else {
        insert_by_name(sorted_by_name(entries.drop_last()), entries.last())
    }
}

/// Whether every entry is followed by one that does not come before it.
pub open spec fn ordered_by_name(entries: Seq<DirEntry>) -> bool {
    forall|i: int|
        0 <= i < entries.len() - 1 ==> lex_le(
            sort_key(#[trigger] entries[i]),
            sort_key(entries[i + 1]),
        )
}

/// Putting an entry into an ordered listing keeps the listing ordered and
/// adds that entry and nothing else.
pub proof fn lemma_insert_by_name(sorted: Seq<DirEntry>, entry: DirEntry)
    requires
        ordered_by_name(sorted),
    ensures
        ordered_by_name(insert_by_name(sorted, entry)),
        insert_by_name(sorted, entry).len() == sorted.len() + 1,
        insert_by_name(sorted, entry).last() == entry || (sorted.len() > 0 && insert_by_name(
            sorted,
            entry,
        ).last() == sorted.last()),
        insert_by_name(sorted, entry).to_multiset() == sorted.to_multiset().insert(entry),
    decreases sorted.len(),
{
    let result = insert_by_name(sorted, entry);
    if sorted.len() == 0 {
        assert(sorted =~= Seq::<DirEntry>::empty());
        vstd::seq_lib::to_multiset_build(sorted, entry);
        assert(result =~= sorted.push(entry));
    } else if lex_le(sort_key(sorted.last()), sort_key(entry)) {
        vstd::seq_lib::to_multiset_build(sorted, entry);
        assert forall|i: int| 0 <= i < result.len() - 1 implies lex_le(
            sort_key(#[trigger] result[i]),
            sort_key(result[i + 1]),
        ) by {
            if i < sorted.len() - 1 {
                assert(result[i] == sorted[i] && result[i + 1] == sorted[i + 1]);
            }
        }
    } else {
        let front = sorted.drop_last();
        let last = sorted.last();
        assert forall|i: int| 0 <= i < front.len() - 1 implies lex_le(
            sort_key(#[trigger] front[i]),
            sort_key(front[i + 1]),
        ) by {
            assert(front[i] == sorted[i] && front[i + 1] == sorted[i + 1]);
        }
        lemma_insert_by_name(front, entry);
        let inner = insert_by_name(front, entry);
        crate::text::lemma_lex_le_total(sort_key(last), sort_key(entry));
        assert(lex_le(sort_key(inner.last()), sort_key(last))) by {
            if inner.last() != entry {
                assert(inner.last() == front.last());
                assert(front.last() == sorted[sorted.len() - 2]);
            }
        }
        assert forall|i: int| 0 <= i < result.len() - 1 implies lex_le(
            sort_key(#[trigger] result[i]),
            sort_key(result[i + 1]),
        ) by {
            if i < inner.len() - 1 {
                assert(result[i] == inner[i] && result[i + 1] == inner[i + 1]);
            } else {
                assert(result[i] == inner.last() && result[i + 1] == last);
            }
        }
        vstd::seq_lib::to_multiset_build(inner, last);
        vstd::seq_lib::to_multiset_build(front, last);
        assert(front.push(last) =~= sorted);
        assert(result.to_multiset() =~= sorted.to_multiset().insert(entry));
    }
}

/// The sorted listing is ordered and holds the same entries as before, each
/// as often as before.
pub proof fn lemma_sorted_by_name(entries: Seq<DirEntry>)
    ensures
        ordered_by_name(sorted_by_name(entries)),
        sorted_by_name(entries).len() == entries.len(),
        sorted_by_name(entries).to_multiset() == entries.to_multiset(),
    decreases entries.len(),
{
    if entries.len() > 0 {
        lemma_sorted_by_name(entries.drop_last());
        lemma_insert_by_name(sorted_by_name(entries.drop_last()), entries.last());
        vstd::seq_lib::to_multiset_build(entries.drop_last(), entries.last());
        assert(entries.drop_last().push(entries.last()) =~= entries);
    }
}

/// The visible entries of `raw` that are directories (`dirs`) or are not, in
/// the order in which they came.
pub open spec fn visible_of_kind(raw: Seq<DirEntry>, dirs: bool) -> Seq<DirEntry> {
    raw.filter(|e: DirEntry| !is_hidden(e.name@) && e.is_dir == dirs)
}

/// What the browser lists for a directory that holds `raw`: the visible
/// directories by name, then the visible files by name.
pub open spec fn listing_of(raw: Seq<DirEntry>) -> Seq<DirEntry> {
    sorted_by_name(visible_of_kind(raw, true)) + sorted_by_name(visible_of_kind(raw, false))
}

/// The index of the first entry with the given name, if there is one.
pub open spec fn position_of_name(entries: Seq<DirEntry>, name: Seq<char>) -> Option<int> {
    if exists|i: int| 0 <= i < entries.len() && entries[i].name@ == name {
        Some(
            choose|i: int|
                0 <= i < entries.len() && entries[i].name@ == name && forall|j: int|
                    0 <= j < i ==> entries[j].name@ != name,
        )
    } else {
        None
    }
}

/// The order of two entries in the listing.
fn compare_names(a: &DirEntry, b: &DirEntry) -> (order: std::cmp::Ordering)
    ensures
        matches!(order, std::cmp::Ordering::Less) <==> !lex_le(sort_key(*b), sort_key(*a)),
        matches!(order, std::cmp::Ordering::Greater) <==> !lex_le(sort_key(*a), sort_key(*b)),
{
    let x = to_lowercase(a.name.as_str());
    let y = to_lowercase(b.name.as_str());
    compare_str(x.as_str(), y.as_str())
}

/// `slice::sort_by` with the order of the listing: the sort is stable, so
/// entries that compare equal keep their order.
#[verifier::external_body]
fn sort_by_name(entries: &mut Vec<DirEntry>)
    ensures
        final(entries)@ == sorted_by_name(old(entries)@),
{
    entries.sort_by(|a, b| compare_names(a, b));
}

/// A browser for picking a folder: the directory shown, its entries and the
/// cursor. The row above the first entry stands for the parent directory.
pub struct FileBrowser {
    pub current_dir: PathBuf,
    pub entries: Vec<DirEntry>,
    pub selected: usize,
    pub scroll_offset: usize,
    pub error: Option<String>,
    /// True when ".." is selected.
    pub parent_selected: bool,
}

impl FileBrowser {
    /// The directory that `enter` would open: the parent when ".." is
    /// selected and there is one, else the selected entry if it is a directory.
    pub open spec fn enter_target_of(&self) -> Option<PathBuf> {
        if self.parent_selected {
            parent_of(self.current_dir)
        } else if self.selected < self.entries@.len() && self.entries@[self.selected as int].is_dir {
            Some(self.entries@[self.selected as int].path)
        } else {
            None
        }
    }

    /// The folder that would be loaded: the parent when ".." is selected
    /// (the current directory if there is none), the selected entry if it is
    /// a directory, else the current directory.
    pub open spec fn load_path_of(&self) -> PathBuf {
        if self.parent_selected {
            match parent_of(self.current_dir) {
                Some(p) => p,
                None => self.current_dir,
            }
        } else if self.selected < self.entries@.len() && self.entries@[self.selected as int].is_dir {
            self.entries@[self.selected as int].path
        } else {
            self.current_dir
        }
    }

    /// A browser that shows `dir`, whose contents were read as `listing`.
    pub fn new(dir: PathBuf, listing: Result<Vec<DirEntry>, String>) -> (browser: Self)
        ensures
            browser.current_dir == dir,
            browser.selected == 0,
            browser.scroll_offset == 0,
            !browser.parent_selected,
            match listing {
                Ok(raw) => browser.error is None && browser.entries@ == listing_of(raw@),
                Err(msg) => browser.entries@.len() == 0 && browser.error is Some
                    && browser.error->0@ == "Cannot read directory: "@ + msg@,
            },
    {
        let mut browser = FileBrowser {
            current_dir: dir,
            entries: Vec::new(),
            selected: 0,
            scroll_offset: 0,
            error: None,
            parent_selected: false,
        };
        browser.refresh(listing);
        browser
    }

    /// Shows what was read from the current directory: `listing` holds its
    /// entries as they came, or the reason why it could not be read. The
    /// cursor goes back to the first entry.
    pub fn refresh(&mut self, listing: Result<Vec<DirEntry>, String>)
        ensures
            final(self).current_dir == old(self).current_dir,
            final(self).selected == 0,
            final(self).scroll_offset == 0,
            !final(self).parent_selected,
            match listing {
                Ok(raw) => final(self).error is None && final(self).entries@ == listing_of(raw@),
                Err(msg) => final(self).entries@.len() == 0 && final(self).error is Some
                    && final(self).error->0@ == "Cannot read directory: "@ + msg@,
            },
    {
        self.entries = Vec::new();
        self.error = None;
        match listing {
            Ok(raw) => {
                let ghost all = raw@;
                let mut dirs: Vec<DirEntry> = Vec::new();
                let mut files: Vec<DirEntry> = Vec::new();
                let mut rest = raw;
                let mut stack: Vec<DirEntry> = Vec::new();
                // Turn the listing over so that entries can be taken from
                // the end in the order in which they came.
                while rest.len() > 0
                    invariant
                        rest@ + stack@.reverse() == all,
                    decreases rest.len(),
                {
                    let ghost before = rest@;
                    let ghost stacked = stack@;
                    let entry = rest.pop().unwrap();
                    stack.push(entry);
                    assert(rest@ + stack@.reverse() =~= before + stacked.reverse()) by {
                        assert(stack@.reverse() =~= seq![entry] + stacked.reverse());
                        assert(before =~= rest@ + seq![entry]);
                    }
                }
                assert(stack@.reverse() =~= all);
                let ghost mut done: Seq<DirEntry> = Seq::empty();
                proof {
                    assert(visible_of_kind(done, true) =~= Seq::<DirEntry>::empty());
                    assert(visible_of_kind(done, false) =~= Seq::<DirEntry>::empty());
                }
                while stack.len() > 0
                    invariant
                        done + stack@.reverse() == all,
                        dirs@ == visible_of_kind(done, true),
                        files@ == visible_of_kind(done, false),
                    decreases stack.len(),
                {
                    let ghost before = stack@;
                    let entry = stack.pop().unwrap();
                    proof {
                        assert(before.reverse() =~= seq![entry] + stack@.reverse());
                        assert(done.push(entry) + stack@.reverse() =~= done + before.reverse());
                        filter_push(done, entry, true);
                        filter_push(done, entry, false);
                        done = done.push(entry);
                    }
                    let hidden = !entry.name.as_str().is_empty() && entry.name.as_str().get_char(0)
                        == '.';
                    if !hidden {
                        if entry.is_dir {
                            dirs.push(entry);
                        } else {
                            files.push(entry);
                        }
                    }
                }
                assert(done =~= all);
                sort_by_name(&mut dirs);
                sort_by_name(&mut files);
                dirs.append(&mut files);
                self.entries = dirs;
            },
            Err(msg) => {
                self.error = Some(String::from_str("Cannot read directory: ").concat(msg.as_str()));
            },
        }
        self.selected = 0;
        self.scroll_offset = 0;
        self.parent_selected = false;
    }

    /// Moves the cursor up by one row; from the first entry it goes to the
    /// parent row, and from there no further.
    pub fn move_up(&mut self)
        ensures
            final(self).current_dir == old(self).current_dir,
            final(self).entries == old(self).entries,
            final(self).error == old(self).error,
            old(self).parent_selected ==> {
                &&& final(self).parent_selected
                &&& final(self).selected == old(self).selected
                &&& final(self).scroll_offset == old(self).scroll_offset
            },
            !old(self).parent_selected && old(self).selected > 0 ==> {
                &&& !final(self).parent_selected
                &&& final(self).selected == old(self).selected - 1
                &&& final(self).scroll_offset == (if final(self).selected < old(self).scroll_offset {
                    final(self).selected
                } else {
                    old(self).scroll_offset
                })
            },
            !old(self).parent_selected && old(self).selected == 0 ==> {
                &&& final(self).parent_selected
                &&& final(self).selected == 0
                &&& final(self).scroll_offset == 0
            },
    {
        if self.parent_selected {
            return ;
        }
        if self.selected > 0 {
            self.selected -= 1;
            if self.selected < self.scroll_offset {
                self.scroll_offset = self.selected;
            }
        } else {
            self.parent_selected = true;
            self.scroll_offset = 0;
        }
    }

    /// Moves the cursor down by one row: from the parent row to the first
    /// entry, from the last entry no further. The list scrolls so that the
    /// cursor stays within `visible_height` rows.
    pub fn move_down(&mut self, visible_height: usize)
        ensures
            final(self).current_dir == old(self).current_dir,
            final(self).entries == old(self).entries,
            final(self).error == old(self).error,
            !final(self).parent_selected,
            old(self).parent_selected ==> {
                &&& final(self).selected == 0
                &&& final(self).scroll_offset == old(self).scroll_offset
            },
            !old(self).parent_selected && old(self).selected + 1 < old(self).entries@.len() ==> {
                &&& final(self).selected == old(self).selected + 1
                &&& final(self).scroll_offset == (if final(self).selected >= old(self).scroll_offset
                    + visible_height {
                    final(self).selected - visible_height + 1
                } else {
                    old(self).scroll_offset as int
                })
            },
            !old(self).parent_selected && old(self).selected + 1 >= old(self).entries@.len() ==> {
                &&& final(self).selected == old(self).selected
                &&& final(self).scroll_offset == old(self).scroll_offset
            },
    {
        if self.parent_selected {
            self.parent_selected = false;
            self.selected = 0;
            return ;
        }
        if !self.entries.is_empty() && self.selected < self.entries.len() - 1 {
            self.selected += 1;
            let below = match self.scroll_offset.checked_add(visible_height) {
                Some(end) => self.selected >= end,
                None => false,
            };
            if below {
                self.scroll_offset = self.selected - visible_height + 1;
            }
        }
    }

    /// The parent of the directory shown, if it has one: the directory that
    /// `go_up` opens.
    pub fn parent_dir(&self) -> (parent: Option<PathBuf>)
        ensures
            parent == parent_of(self.current_dir),
    {
        path_parent(&self.current_dir)
    }

    /// Opens the parent directory, whose contents were read as `listing`,
    /// and puts the cursor on the directory that was left. Without a parent
    /// nothing changes.
    pub fn go_up(&mut self, listing: Result<Vec<DirEntry>, String>)
        ensures
            parent_of(old(self).current_dir) is None ==> *final(self) == *old(self),
            parent_of(old(self).current_dir) matches Some(parent) ==> {
                &&& final(self).current_dir == parent
                &&& final(self).scroll_offset == 0
                &&& !final(self).parent_selected
                &&& match listing {
                    Ok(raw) => final(self).error is None && final(self).entries@ == listing_of(raw@),
                    Err(msg) => final(self).entries@.len() == 0 && final(self).error is Some
                        && final(self).error->0@ == "Cannot read directory: "@ + msg@,
                }
                &&& final(self).selected == (match file_name_of(old(self).current_dir) {
                    Some(name) => match position_of_name(final(self).entries@, name) {
                        Some(i) => i,
                        None => 0,
                    },
                    None => 0,
                })
            },
    {
        match path_parent(&self.current_dir) {
            Some(parent) => {
                let old_name = path_file_name(&self.current_dir);
                self.current_dir = parent;
                self.refresh(listing);
                match old_name {
                    Some(name) => {
                        match find_name(&self.entries, name.as_str()) {
                            Some(idx) => {
                                self.selected = idx;
                            },
                            None => {},
                        }
                    },
                    None => {},
                }
            },
            None => {},
        }
    }

    /// The directory that `enter` opens, if the cursor is on one.
    pub fn enter_target(&self) -> (target: Option<PathBuf>)
        ensures
            target == self.enter_target_of(),
    {
        if self.parent_selected {
            path_parent(&self.current_dir)
        } else if self.selected < self.entries.len() && self.entries[self.selected].is_dir {
            Some(self.entries[self.selected].path.clone())
        } else {
            None
        }
    }

    /// Opens what the cursor is on, if it is a directory: the parent
    /// directory from the parent row, else the selected directory. `listing`
    /// is what was read from the directory that `enter_target` named.
    /// Returns whether a directory was opened; on a file nothing changes.
    pub fn enter(&mut self, listing: Result<Vec<DirEntry>, String>) -> (opened: bool)
        ensures
            opened == (old(self).parent_selected || old(self).enter_target_of() is Some),
            !opened ==> *final(self) == *old(self),
            old(self).parent_selected && parent_of(old(self).current_dir) is None ==> *final(self)
                == *old(self),
            old(self).enter_target_of() matches Some(target) ==> {
                &&& final(self).current_dir == target
                &&& final(self).scroll_offset == 0
                &&& !final(self).parent_selected
                &&& match listing {
                    Ok(raw) => final(self).error is None && final(self).entries@ == listing_of(raw@),
                    Err(msg) => final(self).entries@.len() == 0 && final(self).error is Some
                        && final(self).error->0@ == "Cannot read directory: "@ + msg@,
                }
            },
            !old(self).parent_selected && old(self).enter_target_of() is Some ==> final(self).selected
                == 0,
            old(self).parent_selected && old(self).enter_target_of() is Some ==> final(self).selected
                == (match file_name_of(old(self).current_dir) {
                Some(name) => match position_of_name(final(self).entries@, name) {
                    Some(i) => i,
                    None => 0,
                },
                None => 0,
            }),
    {
        if self.parent_selected {
            self.go_up(listing);
            return true;
        }
        if self.selected < self.entries.len() && self.entries[self.selected].is_dir {
            self.current_dir = self.entries[self.selected].path.clone();
            self.refresh(listing);
            return true;
        }
        false
    }

    /// The folder to load: the selected folder, or the one shown when the
    /// cursor is not on a folder.
    pub fn get_load_path(&self) -> (path: PathBuf)
        ensures
            path == self.load_path_of(),
    {
        if self.parent_selected {
            return match path_parent(&self.current_dir) {
                Some(p) => p,
                None => self.current_dir.clone(),
            };
        }
        if self.selected < self.entries.len() && self.entries[self.selected].is_dir {
            return self.entries[self.selected].path.clone();
        }
        self.current_dir.clone()
    }

    /// Scrolls so that the cursor is within the `visible_height` rows shown.
    pub fn adjust_scroll(&mut self, visible_height: usize)
        ensures
            final(self).current_dir == old(self).current_dir,
            final(self).entries == old(self).entries,
            final(self).error == old(self).error,
            final(self).selected == old(self).selected,
            final(self).parent_selected == old(self).parent_selected,
            final(self).scroll_offset == scrolled_to(
                old(self).selected as int,
                old(self).scroll_offset as int,
                visible_height as int,
            ),
    {
        let below = match self.scroll_offset.checked_add(visible_height) {
            Some(end) => self.selected >= end,
            None => false,
        };
        if below {
            if visible_height == 0 {
                // A window without rows shows nothing; the offset settles on
                // the cursor.
                self.scroll_offset = self.selected;
            } else {
                self.scroll_offset = self.selected - visible_height + 1;
            }
        }
        if self.selected < self.scroll_offset {
            self.scroll_offset = self.selected;
        }
    }
}

/// Filtering a sequence with one more entry at its end.
proof fn filter_push(done: Seq<DirEntry>, entry: DirEntry, dirs: bool)
    ensures
        visible_of_kind(done.push(entry), dirs) == (if !is_hidden(entry.name@) && entry.is_dir
            == dirs {
            visible_of_kind(done, dirs).push(entry)
        } else {
            visible_of_kind(done, dirs)
        }),
{
    reveal(Seq::filter);
    assert(done.push(entry).drop_last() =~= done);
}

/// The index of the first entry called `name`.
fn find_name(entries: &Vec<DirEntry>, name: &str) -> (found: Option<usize>)
    ensures
        match found {
            Some(i) => position_of_name(entries@, name@) == Some(i as int),
            None => position_of_name(entries@, name@) is None,
        },
{
    let mut i: usize = 0;
    while i < entries.len()
        invariant
            i <= entries.len(),
            forall|j: int| 0 <= j < i ==> entries@[j].name@ != name@,
        decreases entries.len() - i,
    {
        if str_eq(entries[i].name.as_str(), name) {
            proof {
                let p = position_of_name(entries@, name@)->0;
                assert(0 <= p < entries@.len() && entries@[p].name@ == name@ && forall|j: int|
                    0 <= j < p ==> entries@[j].name@ != name@);
                assert(p == i);
            }
            return Some(i);
        }
        i += 1;
    }
    None
}

/// The dialog that shows a browser under a title.
pub struct FileBrowserWidget<'a> {
    browser: &'a FileBrowser,
    title: &'a str,
}

impl<'a> FileBrowserWidget<'a> {
    pub closed spec fn browser_of(&self) -> &FileBrowser {
        self.browser
    }

    pub closed spec fn title_of(&self) -> Seq<char> {
        self.title@
    }

    /// A dialog for `browser` under the standard title.
    pub fn new(browser: &'a FileBrowser) -> (widget: Self)
        ensures
            widget.browser_of() == browser,
            widget.title_of() == " Select Folder "@,
    {
        FileBrowserWidget { browser, title: " Select Folder " }
    }

    /// The same dialog under another title.
    pub fn with_title(self, title: &'a str) -> (widget: Self)
        ensures
            widget.browser_of() == self.browser_of(),
            widget.title_of() == title@,
    {
        FileBrowserWidget { browser: self.browser, title }
    }

    pub fn browser(&self) -> (browser: &'a FileBrowser)
        ensures
            browser == self.browser_of(),
    {
        self.browser
    }

    pub fn title(&self) -> (title: &'a str)
        ensures
            title@ == self.title_of(),
    {
        self.title
    }
}

} // verus!
