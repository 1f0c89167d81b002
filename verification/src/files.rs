//! The kinds of file that can be opened, and the entries of the file
//! browser.

use crate::import::{format_for, format_named, FileFormat};
use crate::paths::{extension_of, extension_text, file_name_of, file_name_text};
use crate::strings::{lowercase_text, lowercased, same_text};
use std::path::{Path, PathBuf};
use vstd::prelude::*;
use vstd::string::*;

verus! {

#[verifier::external_type_specification]
#[verifier::external_body]
pub struct ExPathBuf(PathBuf);

/// `PathBuf::clone` hands back an equal path.
pub assume_specification[ <PathBuf as Clone>::clone ](path: &PathBuf) -> (copy: PathBuf)
    ensures
        copy == *path,
;

/// `PathBuf::as_path`: the same path, borrowed. The name stands for the
/// borrowed path, so that what is said of a `Path` can be said of a
/// `PathBuf`.
pub uninterp spec fn path_of(path: &PathBuf) -> &Path;

/// `PathBuf::as_path`. The contract only names the result.
#[verifier::external_body]
pub(crate) fn borrow_path(path: &PathBuf) -> (borrowed: &Path)
    ensures
        borrowed == path_of(path),
{
    path.as_path()
}

/// Represents different types of files that can be opened.
#[derive(Debug, Clone, Copy, PartialEq, Eq, Structural)]
pub enum FileType {
    Database,
    DataFile(FileFormat),
}

/// The kind of file that an extension, already in lower case, stands for.
pub open spec fn type_named(extension: Seq<char>) -> Option<FileType> {
    if extension == "db"@ || extension == "duckdb"@ || extension == "sqlite"@ || extension
        == "sqlite3"@ {
        Some(FileType::Database)
    } else {
        match format_named(extension) {
            Some(format) => Some(FileType::DataFile(format)),
            None => None,
        }
    }
}

/// The kind of file that a path names: the kind that its extension stands
/// for, whatever the case of its letters.
pub open spec fn file_type_of(path: &Path) -> Option<FileType> {
    match extension_of(path) {
        Some(extension) => type_named(lowercased(extension)),
        None => None,
    }
}

/// The kind of file for an extension as `Path::extension` gives it.
pub fn file_type_for(extension: Option<String>) -> (kind: Option<FileType>)
    ensures
        kind == match extension {
            Some(text) => type_named(lowercased(text@)),
            None => None,
        },
{
    match extension {
        Some(text) => {
            let lower = lowercase_text(text.as_str());
            let ext = lower.as_str();
            if same_text(ext, "db") || same_text(ext, "duckdb") || same_text(ext, "sqlite")
                || same_text(ext, "sqlite3") {
                Some(FileType::Database)
            } else {
                match format_for(ext) {
                    Some(format) => Some(FileType::DataFile(format)),
                    None => None,
                }
            }
        },
        None => None,
    }
}

/// Detects the type of a file from the extension of its path.
pub fn detect_file_type(path: &Path) -> (kind: Option<FileType>)
    ensures
        kind == file_type_of(path),
{
    file_type_for(extension_text(path))
}

/// One entry of the file browser.
#[derive(Debug, Clone)]
pub struct FileItem {
    pub path: PathBuf,
    pub name: String,
    pub is_directory: bool,
    pub file_type: Option<FileType>,
}

/// The sign that stands before an entry of the given kind.
pub open spec fn icon_for(is_directory: bool, file_type: Option<FileType>) -> Seq<char> {
    if is_directory {
        "📁"@
    } else {
        match file_type {
            Some(FileType::Database) => "🗃️"@,
            Some(FileType::DataFile(FileFormat::Csv)) => "📊"@,
            Some(FileType::DataFile(FileFormat::Json)) => "📋"@,
            Some(FileType::DataFile(FileFormat::Parquet)) => "📦"@,
            None => "📄"@,
        }
    }
}

/// The line that shows an entry: sign and name, a directory with a slash
/// behind it, a database with two spaces before it.
pub open spec fn display_name_for(
    name: Seq<char>,
    is_directory: bool,
    file_type: Option<FileType>,
) -> Seq<char> {
    if is_directory {
        "📁 "@ + name + "/"@
    } else {
        match file_type {
            Some(FileType::Database) => "🗃️  "@ + name,
            Some(FileType::DataFile(FileFormat::Csv)) => "📊 "@ + name,
            Some(FileType::DataFile(FileFormat::Json)) => "📋 "@ + name,
            Some(FileType::DataFile(FileFormat::Parquet)) => "📦 "@ + name,
            None => "📄 "@ + name,
        }
    }
}

/// The name that an entry for `path` goes by: the last component of the
/// path, or the empty text where the path has none.
pub open spec fn entry_name(path: &Path) -> Seq<char> {
    match file_name_of(path) {
        Some(name) => name,
        None => Seq::empty(),
    }
}

impl FileItem {
    /// The entry for `path`, which is a directory or not as the caller
    /// found it to be. A directory has no file type.
    pub fn new(path: PathBuf, is_directory: bool) -> (item: Self)
        ensures
            item.path == path,
            item.name@ == entry_name(path_of(&path)),
            item.is_directory == is_directory,
            item.file_type == if is_directory {
                None
            } else {
                file_type_of(path_of(&path))
            },
    {
        let name = match file_name_text(borrow_path(&path)) {
            Some(name) => name,
            None => String::new(),
        };
        let file_type = if is_directory {
            None
        } else {
            detect_file_type(borrow_path(&path))
        };
        Self { path, name, is_directory, file_type }
    }

    /// The line that shows the entry.
    pub fn get_display_name(&self) -> (line: String)
        ensures
            line@ == display_name_for(self.name@, self.is_directory, self.file_type),
    {
        let mut line = if self.is_directory {
            "📁 ".to_owned()
        } else {
            match self.file_type {
                Some(FileType::Database) => "🗃️  ".to_owned(),
                Some(FileType::DataFile(FileFormat::Csv)) => "📊 ".to_owned(),
                Some(FileType::DataFile(FileFormat::Json)) => "📋 ".to_owned(),
                Some(FileType::DataFile(FileFormat::Parquet)) => "📦 ".to_owned(),
                None => "📄 ".to_owned(),
            }
        };
        line.append(self.name.as_str());
        if self.is_directory {
            line.append("/");
        }
        line
    }

    /// The sign that stands for the kind of the entry.
    pub fn get_icon(&self) -> (icon: &'static str)
        ensures
            icon@ == icon_for(self.is_directory, self.file_type),
    {
        if self.is_directory {
            "📁"
        } else {
            match self.file_type {
                Some(FileType::Database) => "🗃️",
                Some(FileType::DataFile(FileFormat::Csv)) => "📊",
                Some(FileType::DataFile(FileFormat::Json)) => "📋",
                Some(FileType::DataFile(FileFormat::Parquet)) => "📦",
                None => "📄",
            }
        }
    }
}


/// `Path::parent`, as an owned path: the path without its last component,
/// none for a root or an empty path.
pub uninterp spec fn parent_of(path: &Path) -> Option<PathBuf>;

/// `Path::parent`. The contract only names the result.
#[verifier::external_body]
pub(crate) fn parent_path(path: &Path) -> (parent: Option<PathBuf>)
    ensures
        parent == parent_of(path),
{
    path.parent().map(|p| p.to_path_buf())
}

/// The entries are in order of their names.
pub open spec fn sorted_by_name(items: Seq<FileItem>) -> bool {
    forall|i: int, j: int|
        0 <= i < j < items.len() ==> !crate::strings::precedes(
            #[trigger] items[j].name@,
            #[trigger] items[i].name@,
        )
}

/// Whether the entry is listed: a hidden one, whose name begins with a
/// dot, only where hidden entries are asked for.
pub open spec fn is_listed(item: FileItem, show_hidden: bool) -> bool {
    show_hidden || !(item.name@.len() > 0 && item.name@[0] == '.')
}

/// The entry that leads to the directory above.
pub open spec fn is_parent_entry(item: FileItem, parent: PathBuf) -> bool {
    &&& item.path == parent
    &&& item.name@ == ".."@
    &&& item.is_directory
    &&& item.file_type is None
}

/// What the file browser asks for after a key.
#[derive(Debug, Clone)]
pub enum BrowserStep {
    /// Nothing.
    Stay,
    /// List this directory.
    Open(PathBuf),
    /// List the directory above the current one.
    OpenParent,
    /// List the current directory anew.
    Reload,
    /// This file was chosen.
    Choose(PathBuf),
}

/// The file browser: a directory, its listing and a mark on one entry.
#[derive(Debug, Clone)]
pub struct FileBrowser {
    pub current_path: PathBuf,
    pub items: Vec<FileItem>,
    pub selected_index: usize,
    pub show_hidden: bool,
}

/// Puts `item` into `sorted` so that the names stay in order.
fn insert_by_name(sorted: &mut Vec<FileItem>, item: FileItem)
    requires
        sorted_by_name(old(sorted)@),
    ensures
        sorted_by_name(final(sorted)@),
        final(sorted)@.to_multiset() == old(sorted)@.to_multiset().insert(item),
{
    let mut at: usize = 0;
    while at < sorted.len() && crate::strings::text_precedes(
        sorted[at].name.as_str(),
        item.name.as_str(),
    )
        invariant
            at <= sorted.len(),
            forall|k: int| 0 <= k < at ==> crate::strings::precedes(sorted@[k].name@, item.name@),
        decreases sorted.len() - at,
    {
        at += 1;
    }
    let ghost before = sorted@;
    sorted.insert(at, item);
    proof {
        vstd::seq_lib::to_multiset_insert(before, at as int, item);
        assert forall|i: int, j: int| 0 <= i < j < sorted@.len() implies !crate::strings::precedes(
            #[trigger] sorted@[j].name@,
            #[trigger] sorted@[i].name@,
        ) by {
            if j == at {
                crate::strings::lemma_precedes_is_strict(before[i].name@, item.name@);
            } else if i == at {
                crate::strings::lemma_precedes_is_strict(
                    before[at as int].name@,
                    before[at as int].name@,
                );
                crate::strings::lemma_order_is_transitive(
                    item.name@,
                    before[at as int].name@,
                    before[j - 1].name@,
                );
            } else {
                let i0 = if i < at {
                    i
                } else {
                    i - 1
                };
                let j0 = if j < at {
                    j
                } else {
                    j - 1
                };
                assert(sorted@[i] == before[i0]);
                assert(sorted@[j] == before[j0]);
            }
        }
    }
}

/// The entries in order of their names.
pub fn sort_by_name(items: Vec<FileItem>) -> (sorted: Vec<FileItem>)
    ensures
        sorted_by_name(sorted@),
        sorted@.to_multiset() == items@.to_multiset(),
{
    let mut rest = items;
    let mut sorted: Vec<FileItem> = Vec::new();
    proof {
        broadcast use vstd::multiset::group_multiset_axioms;

        assert(sorted@.to_multiset() =~= vstd::multiset::Multiset::<FileItem>::empty()) by {
            sorted@.to_multiset_ensures();
        }
    }
    while rest.len() > 0
        invariant
            sorted_by_name(sorted@),
            sorted@.to_multiset().add(rest@.to_multiset()) == items@.to_multiset(),
        decreases rest.len(),
    {
        let ghost before = rest@;
        let ghost placed = sorted@.to_multiset();
        let item = rest.pop().unwrap();
        proof {
            vstd::seq_lib::to_multiset_remove(before, before.len() - 1);
            assert(before.remove(before.len() - 1) =~= rest@);
            vstd::seq_lib::to_multiset_contains(before, item);
            assert(before[before.len() - 1] == item);
        }
        insert_by_name(&mut sorted, item);
        proof {
            broadcast use vstd::multiset::group_multiset_axioms;

            assert(placed.insert(item).add(before.to_multiset().remove(item)) =~= placed.add(
                before.to_multiset(),
            ));
        }
    }
    proof {
        broadcast use vstd::multiset::group_multiset_axioms;

        rest@.to_multiset_ensures();
        assert(rest@.to_multiset() =~= vstd::multiset::Multiset::<FileItem>::empty());
        assert(sorted@.to_multiset().add(rest@.to_multiset()) =~= sorted@.to_multiset());
    }
    sorted
}

/// A copy of an entry.
fn copy_item(item: &FileItem) -> (copy: FileItem)
    ensures
        copy == *item,
{
    FileItem {
        path: item.path.clone(),
        name: item.name.clone(),
        is_directory: item.is_directory,
        file_type: item.file_type,
    }
}

/// Whether an entry of this name is listed.
fn listed(name: &str, show_hidden: bool) -> (shown: bool)
    ensures
        shown == (show_hidden || !(name@.len() > 0 && name@[0] == '.')),
{
    show_hidden || !(name.unicode_len() > 0 && name.get_char(0) == '.')
}

impl FileBrowser {
    /// A browser on `current_path` with nothing listed yet.
    pub fn new(current_path: PathBuf) -> (browser: Self)
        ensures
            browser.current_path == current_path,
            browser.items@.len() == 0,
            browser.selected_index == 0,
            !browser.show_hidden,
    {
        Self { current_path, items: Vec::new(), selected_index: 0, show_hidden: false }
    }

    /// Lists what was found in the current directory: first the way up,
    /// unless the directory has none; then the directories in order of
    /// their names; then the files in order of theirs. Hidden entries are
    /// left out unless they are asked for. The mark goes to the top.
    pub fn set_listing(&mut self, found: Vec<FileItem>)
        ensures
            final(self).current_path == old(self).current_path,
            final(self).show_hidden == old(self).show_hidden,
            final(self).selected_index == 0,
            exists|directories: Seq<FileItem>, files: Seq<FileItem>|
                #![trigger sorted_by_name(directories), sorted_by_name(files)]
                {
                    &&& sorted_by_name(directories)
                    &&& sorted_by_name(files)
                    &&& directories.to_multiset() == found@.filter(
                        |f: FileItem| is_listed(f, old(self).show_hidden) && f.is_directory,
                    ).to_multiset()
                    &&& files.to_multiset() == found@.filter(
                        |f: FileItem| is_listed(f, old(self).show_hidden) && !f.is_directory,
                    ).to_multiset()
                    &&& match parent_of(path_of(&old(self).current_path)) {
                        Some(parent) => final(self).items@.len() == 1 + directories.len()
                            + files.len() && is_parent_entry(final(self).items@[0], parent)
                            && final(self).items@.skip(1) == directories + files,
                        None => final(self).items@ == directories + files,
                    }
                },
    {
        let ghost keep_directories = |f: FileItem| is_listed(f, self.show_hidden) && f.is_directory;
        let ghost keep_files = |f: FileItem| is_listed(f, self.show_hidden) && !f.is_directory;
        let mut directories: Vec<FileItem> = Vec::new();
        let mut files: Vec<FileItem> = Vec::new();
        let mut i: usize = 0;
        proof {
            reveal(Seq::filter);
            assert(found@.take(0).filter(keep_directories) =~= Seq::<FileItem>::empty());
            assert(found@.take(0).filter(keep_files) =~= Seq::<FileItem>::empty());
        }
        while i < found.len()
            invariant
                i <= found.len(),
                keep_directories == |f: FileItem| is_listed(f, self.show_hidden) && f.is_directory,
                keep_files == |f: FileItem| is_listed(f, self.show_hidden) && !f.is_directory,
                directories@ == found@.take(i as int).filter(keep_directories),
                files@ == found@.take(i as int).filter(keep_files),
                *self == *old(self),
            decreases found.len() - i,
        {
            proof {
                assert(found@.take(i + 1) =~= found@.take(i as int).push(found@[i as int]));
                found@.take(i as int).lemma_filter_push(found@[i as int], keep_directories);
                found@.take(i as int).lemma_filter_push(found@[i as int], keep_files);
            }
            if listed(found[i].name.as_str(), self.show_hidden) {
                if found[i].is_directory {
                    directories.push(copy_item(&found[i]));
                } else {
                    files.push(copy_item(&found[i]));
                }
            }
            i += 1;
        }
        assert(found@.take(i as int) =~= found@);
        let directories = sort_by_name(directories);
        let files = sort_by_name(files);
        let mut items: Vec<FileItem> = Vec::new();
        let parent = parent_path(borrow_path(&self.current_path));
        if let Some(path) = parent {
            items.push(
                FileItem { path, name: "..".to_owned(), is_directory: true, file_type: None },
            );
        }
        let ghost head = items@;
        let mut directories = directories;
        let mut files = files;
        let ghost sorted_directories = directories@;
        let ghost sorted_files = files@;
        items.append(&mut directories);
        items.append(&mut files);
        self.items = items;
        self.selected_index = 0;
        proof {
            assert(self.items@ =~= head + sorted_directories + sorted_files);
            if parent is Some {
                assert(self.items@.skip(1) =~= sorted_directories + sorted_files);
            } else {
                assert(self.items@ =~= sorted_directories + sorted_files);
            }
            assert(sorted_by_name(sorted_directories) && sorted_by_name(sorted_files));
        }
    }

    /// The entry that is marked.
    pub fn get_selected_item(&self) -> (item: Option<&FileItem>)
        ensures
            match item {
                Some(found) => self.selected_index < self.items@.len() && *found
                    == self.items@[self.selected_index as int],
                None => self.selected_index >= self.items@.len(),
            },
    {
        if self.selected_index < self.items.len() {
            Some(&self.items[self.selected_index])
        } else {
            None
        }
    }

    /// The path of the entry that is marked.
    pub fn get_selected_path(&self) -> (path: Option<PathBuf>)
        ensures
            match path {
                Some(found) => self.selected_index < self.items@.len() && found
                    == self.items@[self.selected_index as int].path,
                None => self.selected_index >= self.items@.len(),
            },
    {
        match self.get_selected_item() {
            Some(item) => Some(item.path.clone()),
            None => None,
        }
    }

    /// Makes `path` the current directory, where it is one. Says whether
    /// the listing has to be made anew.
    pub fn navigate_to(&mut self, path: PathBuf, is_directory: bool) -> (changed: bool)
        ensures
            changed == is_directory,
            final(self).current_path == if is_directory {
                path
            } else {
                old(self).current_path
            },
            final(self).items == old(self).items,
            final(self).selected_index == old(self).selected_index,
            final(self).show_hidden == old(self).show_hidden,
    {
        if is_directory {
            self.current_path = path;
        }
        is_directory
    }

    /// The directory above the current one, if there is one.
    pub fn navigate_up(&self) -> (parent: Option<PathBuf>)
        ensures
            parent == parent_of(path_of(&self.current_path)),
    {
        parent_path(borrow_path(&self.current_path))
    }

    /// Handles a key: up and down move the mark within the listing, Enter
    /// opens the marked directory or chooses the marked file if its kind
    /// is known, `r` lists anew, Backspace goes up.
    pub fn handle_key(&mut self, key: crate::controller::Key) -> (step: BrowserStep)
        ensures
            final(self).current_path == old(self).current_path,
            final(self).items == old(self).items,
            final(self).show_hidden == old(self).show_hidden,
            final(self).selected_index == browser_mark_after(
                old(self).selected_index,
                old(self).items@.len(),
                key,
            ),
            browser_step_is(*old(self), key, step),
    {
        match key {
            crate::controller::Key::Up => {
                self.move_mark(false);
                BrowserStep::Stay
            },
            crate::controller::Key::Down => {
                self.move_mark(true);
                BrowserStep::Stay
            },
            crate::controller::Key::Char(c) => {
                if c == 'k' {
                    self.move_mark(false);
                    BrowserStep::Stay
                } else if c == 'j' {
                    self.move_mark(true);
                    BrowserStep::Stay
                } else if c == 'r' {
                    BrowserStep::Reload
                } else {
                    BrowserStep::Stay
                }
            },
            crate::controller::Key::Enter => self.enter_marked(),
            crate::controller::Key::Backspace => BrowserStep::OpenParent,
            _ => BrowserStep::Stay,
        }
    }

    /// Moves the mark one entry down or up, within the listing.
    fn move_mark(&mut self, down: bool)
        ensures
            final(self).current_path == old(self).current_path,
            final(self).items == old(self).items,
            final(self).show_hidden == old(self).show_hidden,
            final(self).selected_index == if down {
                if old(self).selected_index + 1 < old(self).items@.len() {
                    (old(self).selected_index + 1) as usize
                } else {
                    old(self).selected_index
                }
            } else if old(self).selected_index > 0 {
                (old(self).selected_index - 1) as usize
            } else {
                0
            },
    {
        if down {
            if self.items.len() > 0 && self.selected_index < self.items.len() - 1 {
                self.selected_index += 1;
            }
        } else if self.selected_index > 0 {
            self.selected_index -= 1;
        }
    }

    /// What Enter asks for.
    fn enter_marked(&self) -> (step: BrowserStep)
        ensures
            browser_step_is(*self, crate::controller::Key::Enter, step),
    {
        match self.get_selected_item() {
            Some(item) => {
                if item.is_directory {
                    BrowserStep::Open(item.path.clone())
                } else if item.file_type.is_some() {
                    BrowserStep::Choose(item.path.clone())
                } else {
                    BrowserStep::Stay
                }
            },
            None => BrowserStep::Stay,
        }
    }
}

/// Where the mark of the file browser is after a key.
pub open spec fn browser_mark_after(mark: usize, entries: nat, key: crate::controller::Key) -> usize {
    if key == crate::controller::Key::Up || key == crate::controller::Key::Char('k') {
        if mark > 0 {
            (mark - 1) as usize
        } else {
            0
        }
    } else if key == crate::controller::Key::Down || key == crate::controller::Key::Char('j') {
        if mark + 1 < entries {
            (mark + 1) as usize
        } else {
            mark
        }
    } else {
        mark
    }
}

/// What the file browser asks for after a key.
pub open spec fn browser_step_is(browser: FileBrowser, key: crate::controller::Key, step: BrowserStep) -> bool {
    match key {
        crate::controller::Key::Enter => if browser.selected_index < browser.items@.len() {
            let item = browser.items@[browser.selected_index as int];
            if item.is_directory {
                step == BrowserStep::Open(item.path)
            } else if item.file_type is Some {
                step == BrowserStep::Choose(item.path)
            } else {
                step is Stay
            }
        } else {
            step is Stay
        },
        crate::controller::Key::Backspace => step is OpenParent,
        crate::controller::Key::Char(c) => if c == 'r' {
            step is Reload
        } else {
            step is Stay
        },
        _ => step is Stay,
    }
}

} // verus!
