//! The file browser: the entries of one directory, sorted into
//! subdirectories and playable files, and a cursor over them.
//!
//! The browser never reads the disk. Its caller lists a directory and hands
//! over what it found; the browser decides what is shown.

use vstd::prelude::*;
use vstd::string::*;
use vstd::utf8::encode_utf8;

verus! {

/// Why the browser could not be set up.
pub struct FsError {
    msg: &'static str,
}

impl FsError {
    /// What went wrong, in words.
    pub closed spec fn spec_msg(&self) -> Seq<char> {
        self.msg@
    }

    /// The path of the directory is not text.
    pub fn path_not_text() -> (error: Self)
        ensures
            error.spec_msg() == "path to_str error."@,
    {
        FsError { msg: "path to_str error." }
    }

    /// The path does not name a directory.
    pub fn not_a_directory() -> (error: Self)
        ensures
            error.spec_msg() == "is not a valid path"@,
    {
        FsError { msg: "is not a valid path" }
    }

    /// The error as a line of text.
    pub fn message(&self) -> (text: String)
        ensures
            text@ == "FsError: "@ + self.spec_msg(),
    {
        "FsError: ".to_owned().concat(self.msg)
    }
}

/// One entry of a directory, as the caller found it.
pub struct DirItem {
    /// The entry's file name.
    pub name: String,
    /// The extension of the entry's path, if it has one.
    pub extension: Option<String>,
    /// Whether the entry's path leads to a directory.
    pub is_dir: bool,
}

/// What the browser makes of an entry.
#[derive(Clone, Copy, Debug, PartialEq, Eq, Structural)]
pub enum EntryKind {
    /// A subdirectory to walk into.
    Dir,
    /// A file that can be played.
    File,
    /// Not shown.
    Skip,
}

/// A directory entry as plain values.
pub struct Entry {
    pub name: Seq<char>,
    pub extension: Option<Seq<char>>,
    pub is_dir: bool,
}

impl View for DirItem {
    type V = Entry;

    open spec fn view(&self) -> Entry {
        Entry {
            name: self.name@,
            extension: match self.extension {
                Some(extension) => Some(extension@),
                None => None,
            },
            is_dir: self.is_dir,
        }
    }
}

/// Whether `text` ends with `suffix`.
pub open spec fn has_suffix(text: Seq<u8>, suffix: Seq<u8>) -> bool {
    text.len() >= suffix.len() && text.subrange(text.len() - suffix.len(), text.len() as int)
        == suffix
}

/// The bytes of `mp3`.
pub open spec fn suffix_mp3() -> Seq<u8> {
    seq![0x6du8, 0x70u8, 0x33u8]
}

/// The bytes of `wav`.
pub open spec fn suffix_wav() -> Seq<u8> {
    seq![0x77u8, 0x61u8, 0x76u8]
}

/// The bytes of `flac`.
pub open spec fn suffix_flac() -> Seq<u8> {
    seq![0x66u8, 0x6cu8, 0x61u8, 0x63u8]
}

/// The bytes of `ts`.
pub open spec fn suffix_ts() -> Seq<u8> {
    seq![0x74u8, 0x73u8]
}

/// Whether an extension, as UTF-8, ends with one of `mp3`, `wav`, `flac`
/// and `ts`.
pub open spec fn accepted(extension: Seq<u8>) -> bool {
    has_suffix(extension, suffix_mp3()) || has_suffix(extension, suffix_wav()) || has_suffix(
        extension,
        suffix_flac(),
    ) || has_suffix(extension, suffix_ts())
}

impl Entry {
    /// An entry with an extension is a playable file if the extension is an
    /// accepted one, and is not shown otherwise, directory or not. An entry
    /// without an extension is a subdirectory if it leads to a directory,
    /// and is not shown otherwise.
    pub open spec fn kind(self) -> EntryKind {
        match self.extension {
            Some(extension) => if accepted(encode_utf8(extension)) {
                EntryKind::File
            } else {
                EntryKind::Skip
            },
            None => if self.is_dir {
                EntryKind::Dir
            } else {
                EntryKind::Skip
            },
        }
    }
}

/// The names of those of `entries` that are of `kind`, in their order.
pub open spec fn names_of(entries: Seq<Entry>, kind: EntryKind) -> Seq<Seq<char>>
    decreases entries.len(),
{
    if entries.len() == 0 {
        Seq::empty()
    } else {
        let before = names_of(entries.drop_last(), kind);
        if entries.last().kind() == kind {
            before.push(entries.last().name)
        } else {
            before
        }
    }
}

/// The views of a list of directory entries.
pub open spec fn entries_of(listing: Seq<DirItem>) -> Seq<Entry> {
    Seq::new(listing.len(), |i: int| listing[i]@)
}

/// The texts of a list of strings.
pub open spec fn texts_of(names: Seq<String>) -> Seq<Seq<char>> {
    Seq::new(names.len(), |i: int| names[i]@)
}

/// Whether `text` ends with `suffix`.
pub fn ends_with(text: &[u8], suffix: &[u8]) -> (b: bool)
    ensures
        b == has_suffix(text@, suffix@),
{
    let n: usize = text.len();
    let m: usize = suffix.len();
    if n < m {
        return false;
    }
    let mut at: usize = 0;
    while at < m
        invariant
            at <= m <= n,
            n == text@.len(),
            m == suffix@.len(),
            forall|j: int| 0 <= j < at ==> text@[n - m + j] == suffix@[j],
        decreases m - at,
    {
        if text[n - m + at] != suffix[at] {
            assert(text@.subrange(n - m, n as int)[at as int] != suffix@[at as int]);
            return false;
        }
        at = at + 1;
    }
    assert(text@.subrange(n - m, n as int) =~= suffix@);
    true
}

/// Whether an extension is an accepted one.
pub fn is_accepted(extension: &str) -> (b: bool)
    ensures
        b == accepted(encode_utf8(extension@)),
{
    let bytes = extension.as_bytes();
    let mp3: Vec<u8> = vec![0x6du8, 0x70u8, 0x33u8];
    let wav: Vec<u8> = vec![0x77u8, 0x61u8, 0x76u8];
    let flac: Vec<u8> = vec![0x66u8, 0x6cu8, 0x61u8, 0x63u8];
    let ts: Vec<u8> = vec![0x74u8, 0x73u8];
    assert(mp3@ =~= suffix_mp3());
    assert(wav@ =~= suffix_wav());
    assert(flac@ =~= suffix_flac());
    assert(ts@ =~= suffix_ts());
    ends_with(bytes, mp3.as_slice()) || ends_with(bytes, wav.as_slice()) || ends_with(
        bytes,
        flac.as_slice(),
    ) || ends_with(bytes, ts.as_slice())
}

impl DirItem {
    /// What the browser makes of this entry.
    pub fn kind(&self) -> (kind: EntryKind)
        ensures
            kind == self@.kind(),
    {
        match &self.extension {
            Some(extension) => {
                if is_accepted(extension.as_str()) {
                    EntryKind::File
                } else {
                    EntryKind::Skip
                }
            },
            None => {
                if self.is_dir {
                    EntryKind::Dir
                } else {
                    EntryKind::Skip
                }
            },
        }
    }
}

/// Sorts the entries of a directory into the names of its subdirectories
/// and the names of its playable files, each in the order of the listing.
pub fn visit_dir(listing: &Vec<DirItem>) -> (found: (Vec<String>, Vec<String>))
    ensures
        texts_of(found.0@) == names_of(entries_of(listing@), EntryKind::Dir),
        texts_of(found.1@) == names_of(entries_of(listing@), EntryKind::File),
        found.0@.len() + found.1@.len() <= listing@.len(),
{
    let mut dirs: Vec<String> = Vec::new();
    let mut files: Vec<String> = Vec::new();
    let mut at: usize = 0;
    assert(entries_of(listing@).take(0) =~= Seq::empty());
    while at < listing.len()
        invariant
            at <= listing@.len(),
            texts_of(dirs@) =~= names_of(entries_of(listing@).take(at as int), EntryKind::Dir),
            texts_of(files@) =~= names_of(entries_of(listing@).take(at as int), EntryKind::File),
            dirs@.len() + files@.len() <= at,
        decreases listing@.len() - at,
    {
        let item = &listing[at];
        proof {
            let upto = entries_of(listing@).take(at + 1);
            assert(upto.drop_last() =~= entries_of(listing@).take(at as int));
            assert(upto.last() == item@);
        }
        match item.kind() {
            EntryKind::Dir => {
                dirs.push(item.name.clone());
            },
            EntryKind::File => {
                files.push(item.name.clone());
            },
            EntryKind::Skip => {},
        }
        at = at + 1;
    }
    assert(entries_of(listing@).take(at as int) =~= entries_of(listing@));
    (dirs, files)
}

/// What the browser holds, as plain values.
pub struct Browser {
    /// The directory shown.
    pub current_path: Seq<char>,
    /// The names of its subdirectories.
    pub dirs: Seq<Seq<char>>,
    /// The names of its playable files.
    pub files: Seq<Seq<char>>,
    /// The cursor. Position 0 is the way back to the parent directory, the
    /// subdirectories follow, the files come last.
    pub index: Option<usize>,
}

impl Browser {
    /// The entries can be counted by the machine.
    pub open spec fn wf(self) -> bool {
        self.dirs.len() + self.files.len() <= usize::MAX
    }

    /// The last position of the cursor: the number of entries shown.
    pub open spec fn last(self) -> usize {
        (self.dirs.len() + self.files.len()) as usize
    }

    /// The browser showing what a listing of `path` gave, the cursor at
    /// the top.
    pub open spec fn opened(path: Seq<char>, entries: Seq<Entry>) -> Browser {
        Browser {
            current_path: path,
            dirs: names_of(entries, EntryKind::Dir),
            files: names_of(entries, EntryKind::File),
            index: Some(0usize),
        }
    }

    /// The browser showing a new listing of the same directory. The cursor
    /// stays.
    pub open spec fn listed(self, entries: Seq<Entry>) -> Browser {
        Browser {
            dirs: names_of(entries, EntryKind::Dir),
            files: names_of(entries, EntryKind::File),
            ..self
        }
    }

    /// The cursor one down, from the last position to the top. A cursor
    /// that was not set goes to the top.
    pub open spec fn down(self) -> Browser {
        Browser {
            index: match self.index {
                None => Some(0usize),
                Some(at) => if at == self.last() {
                    Some(0usize)
                } else if at < self.last() {
                    Some((at + 1) as usize)
                } else {
                    Some(self.last())
                },
            },
            ..self
        }
    }

    /// The cursor one up, from the top to the last position. A cursor that
    /// was not set goes to the top.
    pub open spec fn up(self) -> Browser {
        Browser {
            index: match self.index {
                None => Some(0usize),
                Some(at) => if at == 0 {
                    Some(self.last())
                } else {
                    Some((at - 1) as usize)
                },
            },
            ..self
        }
    }
}

/// The file browser.
pub struct FsExplorer {
    current_path: String,
    files: Vec<String>,
    dirs: Vec<String>,
    index: Option<usize>,
}

impl View for FsExplorer {
    type V = Browser;

    closed spec fn view(&self) -> Browser {
        Browser {
            current_path: self.current_path@,
            dirs: texts_of(self.dirs@),
            files: texts_of(self.files@),
            index: self.index,
        }
    }
}

impl FsExplorer {
    /// A browser on the directory at `current_path`, whose entries are
    /// `listing`. `None` for the path says that the path is not text;
    /// `None` for the listing says that the path names no directory that
    /// can be listed.
    pub fn default(current_path: Option<String>, listing: Option<Vec<DirItem>>) -> (made: Result<
        Self,
        FsError,
    >)
        ensures
            match (current_path, listing) {
                (None, _) => made is Err && made->Err_0.spec_msg() == "path to_str error."@,
                (Some(_), None) => made is Err && made->Err_0.spec_msg() == "is not a valid path"@,
                (Some(path), Some(items)) => made is Ok && made->Ok_0@ == Browser::opened(
                    path@,
                    entries_of(items@),
                ) && made->Ok_0@.wf(),
            },
    {
        let path = match current_path {
            Some(path) => path,
            None => {
                return Err(FsError::path_not_text());
            },
        };
        let items = match listing {
            Some(items) => items,
            None => {
                return Err(FsError::not_a_directory());
            },
        };
        let (dirs, files) = visit_dir(&items);
        assert(items@.len() == items.len());
        Ok(FsExplorer { current_path: path, files, dirs, index: Some(0) })
    }

    /// Takes a new listing of the directory shown. `None` says that the
    /// directory could not be listed; then nothing changes.
    pub fn refresh(&mut self, listing: Option<Vec<DirItem>>)
        requires
            old(self)@.wf(),
        ensures
            final(self)@.wf(),
            final(self)@ == match listing {
                Some(items) => old(self)@.listed(entries_of(items@)),
                None => old(self)@,
            },
    {
        match listing {
            Some(items) => {
                let (dirs, files) = visit_dir(&items);
                assert(items@.len() == items.len());
                self.dirs = dirs;
                self.files = files;
            },
            None => {},
        }
    }

    /// Goes to the directory at `path`, whose entries are `listing`: the
    /// path is noted, the cursor goes to the top, and the listing is taken
    /// as [`Self::refresh`] takes it.
    pub fn enter(&mut self, path: String, listing: Option<Vec<DirItem>>)
        requires
            old(self)@.wf(),
        ensures
            final(self)@.wf(),
            final(self)@ == match listing {
                Some(items) => Browser::opened(path@, entries_of(items@)),
                None => Browser { current_path: path@, index: Some(0usize), ..old(self)@ },
            },
    {
        self.current_path = path;
        self.index = Some(0);
        self.refresh(listing);
    }

    /// The directory shown.
    pub fn current_path(&self) -> (path: &String)
        ensures
            path@ == self@.current_path,
    {
        &self.current_path
    }

    /// The names of the subdirectories.
    pub fn dirs(&self) -> (dirs: &Vec<String>)
        ensures
            texts_of(dirs@) == self@.dirs,
    {
        &self.dirs
    }

    /// The names of the playable files.
    pub fn files(&self) -> (files: &Vec<String>)
        ensures
            texts_of(files@) == self@.files,
    {
        &self.files
    }

    /// The cursor.
    pub fn selected(&self) -> (index: Option<usize>)
        ensures
            index == self@.index,
    {
        self.index
    }

    /// Sets the cursor.
    pub fn select(&mut self, index: Option<usize>)
        ensures
            final(self)@ == (Browser { index, ..old(self)@ }),
    {
        self.index = index;
    }

    /// Moves the cursor one down. Tells whether the cursor had been set.
    pub fn move_down(&mut self) -> (was_set: bool)
        requires
            old(self)@.wf(),
        ensures
            final(self)@ == old(self)@.down(),
            was_set == (old(self)@.index is Some),
    {
        let last: usize = self.dirs.len() + self.files.len();
        match self.index {
            Some(at) => {
                if at == last {
                    self.index = Some(0);
                } else if at < last {
                    self.index = Some(at + 1);
                } else {
                    self.index = Some(last);
                }
                true
            },
            None => {
                self.index = Some(0);
                false
            },
        }
    }

    /// Moves the cursor one up. Tells whether the cursor had been set.
    pub fn move_up(&mut self) -> (was_set: bool)
        requires
            old(self)@.wf(),
        ensures
            final(self)@ == old(self)@.up(),
            was_set == (old(self)@.index is Some),
    {
        let last: usize = self.dirs.len() + self.files.len();
        match self.index {
            Some(at) => {
                if at == 0 {
                    self.index = Some(last);
                } else {
                    self.index = Some(at - 1);
                }
                true
            },
            None => {
                self.index = Some(0);
                false
            },
        }
    }
}

} // verus!
