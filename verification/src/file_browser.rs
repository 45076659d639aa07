//! The file list of the browser: which entries of a directory listing are
//! shown, which one is selected, and how an entry is labelled. Reading the
//! directory is the caller's part; the listing comes in as plain values.

use vstd::prelude::*;
use crate::converter::{lowercase_form, VideoFormat};
use crate::paths::{extension_of, file_name_of, parent_of, path_extension, std_file_name, std_parent};
use crate::text::{concat2, str_eq};

verus! {

/// What a listed path was when the directory was read.
#[derive(Debug, Clone, Copy, PartialEq, Eq, Structural)]
pub enum EntryKind {
    Directory,
    File,
    /// Neither a directory nor a regular file.
    Other,
}

/// One entry of a directory listing.
#[derive(Debug, Clone)]
pub struct BrowserEntry {
    pub path: String,
    pub kind: EntryKind,
}

/// An entry with its path as a character sequence.
pub ghost struct EntryView {
    pub path: Seq<char>,
    pub kind: EntryKind,
}

impl View for BrowserEntry {
    type V = EntryView;

    open spec fn view(&self) -> EntryView {
        EntryView { path: self.path@, kind: self.kind }
    }
}

/// The entries of a list, in order, each by its view.
pub open spec fn entries(list: Seq<BrowserEntry>) -> Seq<EntryView> {
    Seq::new(list.len(), |i: int| list[i]@)
}

/// Whether a path has the extension of a supported format, in any letter case.
pub open spec fn is_video_path(path: Seq<char>) -> bool {
    match path_extension(path) {
        Some(ext) => VideoFormat::of_lowercase(lowercase_form(ext)) is Some,
        None => false,
    }
}

/// Whether an entry of the listing is shown: the listed directory itself is
/// not; a directory is; anything else only with a video extension.
pub open spec fn is_shown(entry: EntryView, current_dir: Seq<char>) -> bool {
    entry.path != current_dir && (entry.kind == EntryKind::Directory || is_video_path(entry.path))
}

/// The entries of a listing that are shown, in the listing's order.
pub open spec fn shown_entries(listing: Seq<EntryView>, current_dir: Seq<char>) -> Seq<EntryView>
    decreases listing.len(),
{
    if listing.len() == 0 {
        Seq::empty()
    } else if is_shown(listing.last(), current_dir) {
        shown_entries(listing.drop_last(), current_dir).push(listing.last())
    } else {
        shown_entries(listing.drop_last(), current_dir)
    }
}

/// The file list for a directory: its parent first, if it has one, then the
/// entries of the listing that are shown.
pub open spec fn file_list(current_dir: Seq<char>, listing: Seq<EntryView>) -> Seq<EntryView> {
    (match std_parent(current_dir) {
        Some(parent) => seq![EntryView { path: parent, kind: EntryKind::Directory }],
        None => Seq::<EntryView>::empty(),
    }) + shown_entries(listing, current_dir)
}

/// The label of a path in the list: two dots for the parent of the current
/// directory; else a marker for a folder or a film, and the file name.
pub open spec fn display_label(current_dir: Seq<char>, path: Seq<char>, is_dir: bool) -> Seq<char> {
    if std_parent(current_dir) == Some(path) {
        ".."@
    } else {
        (if is_dir {
            "\u{11f}\u{178}\u{201c} "@
        } else {
            "\u{11f}\u{178}\u{ac} "@
        }) + (match std_file_name(path) {
            Some(name) => name,
            None => "<unknown>"@,
        })
    }
}

/// The browser's state, with its paths as character sequences.
pub ghost struct BrowserView {
    pub current_dir: Seq<char>,
    pub files: Seq<EntryView>,
    pub selected: nat,
}

/// The browser: the directory shown, its file list and the selected entry.
#[derive(Debug)]
pub struct FileBrowser {
    current_dir: String,
    files: Vec<BrowserEntry>,
    selected_idx: usize,
}

impl View for FileBrowser {
    type V = BrowserView;

    closed spec fn view(&self) -> BrowserView {
        BrowserView {
            current_dir: self.current_dir@,
            files: entries(self.files@),
            selected: self.selected_idx as nat,
        }
    }
}

/// The selection points into the list, or is zero where the list is empty.
pub open spec fn selection_ok(b: BrowserView) -> bool {
    b.selected == 0 || b.selected < b.files.len()
}

/// The browser after the next entry was selected: the first after the last.
/// An empty list has nothing to select.
pub open spec fn after_next(b: BrowserView) -> BrowserView {
    if b.files.len() > 0 {
        BrowserView { selected: ((b.selected + 1) % b.files.len()) as nat, ..b }
    } else {
        b
    }
}

/// The browser after the previous entry was selected: the last before the
/// first. An empty list has nothing to select.
pub open spec fn after_previous(b: BrowserView) -> BrowserView {
    if b.files.len() > 0 {
        BrowserView {
            selected: if b.selected > 0 {
                (b.selected - 1) as nat
            } else {
                (b.files.len() - 1) as nat
            },
            ..b
        }
    } else {
        b
    }
}

/// Tests whether a listed entry is shown.
fn shows(entry: &BrowserEntry, current_dir: &str) -> (r: bool)
    ensures
        r == is_shown(entry@, current_dir@),
{
    if str_eq(entry.path.as_str(), current_dir) {
        return false;
    }
    match entry.kind {
        EntryKind::Directory => true,
        _ => match extension_of(entry.path.as_str()) {
            Some(ext) => VideoFormat::from_extension(ext.as_str()).is_some(),
            None => false,
        },
    }
}

/// Builds the file list for a directory from its listing.
fn build_file_list(current_dir: &str, listing: &Vec<BrowserEntry>) -> (r: Vec<BrowserEntry>)
    ensures
        entries(r@) == file_list(current_dir@, entries(listing@)),
{
    let mut files: Vec<BrowserEntry> = Vec::new();
    match parent_of(current_dir) {
        Some(parent) => {
            files.push(BrowserEntry { path: parent, kind: EntryKind::Directory });
        },
        None => {},
    }
    let ghost head = entries(files@);
    assert(head =~= file_list(current_dir@, Seq::empty()));
    let n = listing.len();
    let mut i: usize = 0;
    assert(entries(listing@).subrange(0, 0) =~= Seq::empty());
    while i < n
        invariant
            n == listing@.len(),
            i <= n,
            entries(files@) == file_list(current_dir@, entries(listing@).subrange(0, i as int)),
        decreases n - i,
    {
        let ghost before = entries(listing@).subrange(0, i as int);
        let ghost after = entries(listing@).subrange(0, i + 1);
        let ghost old_files = entries(files@);
        assert(after.drop_last() =~= before);
        assert(after.last() == listing@[i as int]@);
        if shows(&listing[i], current_dir) {
            let entry = BrowserEntry {
                path: String::from_str(listing[i].path.as_str()),
                kind: listing[i].kind,
            };
            files.push(entry);
            assert(entries(files@) =~= old_files.push(listing@[i as int]@));
            assert(entries(files@) =~= file_list(current_dir@, after));
        } else {
            assert(entries(files@) =~= file_list(current_dir@, after));
        }
        i = i + 1;
    }
    assert(entries(listing@).subrange(0, n as int) =~= entries(listing@));
    files
}

impl FileBrowser {
    #[verifier::type_invariant]
    spec fn selection_in_range(self) -> bool {
        selection_ok(self@)
    }

    /// A browser that shows `starting_dir`, whose entries are `listing`.
    pub fn new(starting_dir: String, listing: Vec<BrowserEntry>) -> (r: FileBrowser)
        ensures
            r@ == (BrowserView {
                current_dir: starting_dir@,
                files: file_list(starting_dir@, entries(listing@)),
                selected: 0,
            }),
    {
        let files = build_file_list(starting_dir.as_str(), &listing);
        FileBrowser { current_dir: starting_dir, files, selected_idx: 0 }
    }

    /// Rebuilds the file list from a new listing of the current directory,
    /// and selects the first entry.
    pub fn refresh_files(&mut self, listing: Vec<BrowserEntry>)
        ensures
            final(self)@ == (BrowserView {
                current_dir: old(self)@.current_dir,
                files: file_list(old(self)@.current_dir, entries(listing@)),
                selected: 0,
            }),
    {
        let files = build_file_list(self.current_dir.as_str(), &listing);
        self.selected_idx = 0;
        self.files = files;
    }

    /// Selects the next entry, the first after the last.
    pub fn next(&mut self)
        ensures
            final(self)@ == after_next(old(self)@),
            selection_ok(final(self)@),
    {
        proof {
            use_type_invariant(&*self);
        }
        if self.files.len() > 0 {
            self.selected_idx = (self.selected_idx + 1) % self.files.len();
        }
    }

    /// Selects the previous entry, the last before the first.
    pub fn previous(&mut self)
        ensures
            final(self)@ == after_previous(old(self)@),
            selection_ok(final(self)@),
    {
        proof {
            use_type_invariant(&*self);
        }
        if self.files.len() > 0 {
            if self.selected_idx > 0 {
                self.selected_idx = self.selected_idx - 1;
            } else {
                self.selected_idx = self.files.len() - 1;
            }
        }
    }

    /// Enters the selected entry if it is a directory: it becomes the
    /// current directory, and `listing`, which the caller read from it,
    /// gives the new file list. Returns whether it did; else nothing changes.
    pub fn enter_directory(&mut self, listing: Vec<BrowserEntry>) -> (r: bool)
        ensures
            r == (old(self)@.files.len() > 0 && old(self)@.files[old(self)@.selected as int].kind
                == EntryKind::Directory),
            !r ==> final(self)@ == old(self)@,
            r ==> final(self)@ == (BrowserView {
                current_dir: old(self)@.files[old(self)@.selected as int].path,
                files: file_list(
                    old(self)@.files[old(self)@.selected as int].path,
                    entries(listing@),
                ),
                selected: 0,
            }),
    {
        proof {
            use_type_invariant(&*self);
        }
        if self.files.len() == 0 {
            return false;
        }
        let selected = &self.files[self.selected_idx];
        assert(selected@ == entries(self.files@)[self.selected_idx as int]);
        match selected.kind {
            EntryKind::Directory => {
                let target = String::from_str(selected.path.as_str());
                let files = build_file_list(target.as_str(), &listing);
                self.selected_idx = 0;
                self.files = files;
                self.current_dir = target;
                true
            },
            _ => false,
        }
    }

    /// The selected entry, if the list has one.
    pub fn get_selected_file(&self) -> (r: Option<&BrowserEntry>)
        ensures
            match r {
                Some(entry) => self@.files.len() > 0 && entry@ == self@.files[self@.selected as int],
                None => self@.files.len() == 0,
            },
            selection_ok(self@),
    {
        proof {
            use_type_invariant(self);
        }
        if self.files.len() == 0 {
            None
        } else {
            let entry = &self.files[self.selected_idx];
            assert(entry@ == entries(self.files@)[self.selected_idx as int]);
            Some(entry)
        }
    }

    /// The file list.
    pub fn get_files(&self) -> (r: &Vec<BrowserEntry>)
        ensures
            entries(r@) == self@.files,
    {
        &self.files
    }

    /// The index of the selected entry.
    pub fn get_selected_idx(&self) -> (r: usize)
        ensures
            r == self@.selected,
            selection_ok(self@),
    {
        proof {
            use_type_invariant(self);
        }
        self.selected_idx
    }

    /// The directory shown.
    pub fn get_current_dir(&self) -> (r: &str)
        ensures
            r@ == self@.current_dir,
    {
        self.current_dir.as_str()
    }

    /// Whether the selected entry is the parent of the current directory.
    pub fn is_selected_parent_dir(&self) -> (r: bool)
        ensures
            r == (self@.files.len() > 0 && std_parent(self@.current_dir) == Some(
                self@.files[self@.selected as int].path,
            )),
    {
        proof {
            use_type_invariant(self);
        }
        if self.files.len() == 0 {
            return false;
        }
        let entry = &self.files[self.selected_idx];
        assert(entry@ == entries(self.files@)[self.selected_idx as int]);
        match parent_of(self.current_dir.as_str()) {
            Some(parent) => str_eq(entry.path.as_str(), parent.as_str()),
            None => false,
        }
    }

    /// Whether the selected entry is a regular file.
    pub fn is_selected_file(&self) -> (r: bool)
        ensures
            r == (self@.files.len() > 0 && self@.files[self@.selected as int].kind
                == EntryKind::File),
    {
        proof {
            use_type_invariant(self);
        }
        if self.files.len() == 0 {
            return false;
        }
        let entry = &self.files[self.selected_idx];
        assert(entry@ == entries(self.files@)[self.selected_idx as int]);
        match entry.kind {
            EntryKind::File => true,
            _ => false,
        }
    }

    /// The label of a path in the list.
    pub fn format_path_for_display(&self, path: &str, is_dir: bool) -> (r: String)
        ensures
            r@ == display_label(self@.current_dir, path@, is_dir),
    {
        match parent_of(self.current_dir.as_str()) {
            Some(parent) => {
                if str_eq(path, parent.as_str()) {
                    return String::from_str("..");
                }
            },
            None => {},
        }
        let marker = if is_dir {
            "\u{11f}\u{178}\u{201c} "
        } else {
            "\u{11f}\u{178}\u{ac} "
        };
        match file_name_of(path) {
            Some(name) => concat2(marker, name.as_str()),
            None => concat2(marker, "<unknown>"),
        }
    }
}

} // verus!
