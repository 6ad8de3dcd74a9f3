//! The directory browser: the directory that is open and a flat listing of
//! what it holds.
//!
//! The browser touches no file system. A caller enumerates the directory and
//! hands the outcome to [`DirectoryView::refresh`]; to create a file it asks
//! [`DirectoryView::new_file_target`] for the path, tries to create it, and
//! reports how that went to [`DirectoryView::file_created`].

use vstd::prelude::*;
use vstd::string::*;
use crate::text::{join_path, joined_path, trim, trimmed};

verus! {

/// How an attempt to create a file ended.
#[derive(Clone, Copy, Debug, PartialEq, Eq, Structural)]
pub enum CreateOutcome {
    /// The path was free and an empty file now stands there.
    Created,
    /// Something stood at the path already; nothing was touched.
    AlreadyExists,
    /// The path was free, but the file could not be created.
    Failed,
}

/// What the file system says an entry of the listing is.
#[derive(Clone, Copy, Debug, PartialEq, Eq, Structural)]
pub enum EntryKind {
    File,
    Directory,
    Other,
}

/// What follows from selecting an entry of the listing.
#[derive(Clone, Debug, PartialEq, Eq)]
pub enum Selection {
    /// The entry is a file: load it into the document.
    LoadFile(String),
    /// The entry is a directory: open it in place of the current one.
    OpenDirectory(String),
    /// The entry is neither, or there is no such entry.
    Nothing,
}

/// A [`Selection`] as a value of specifications.
pub enum SelectionModel {
    LoadFile(Seq<char>),
    OpenDirectory(Seq<char>),
    Nothing,
}

impl View for Selection {
    type V = SelectionModel;

    open spec fn view(&self) -> SelectionModel {
        match self {
            Selection::LoadFile(path) => SelectionModel::LoadFile(path@),
            Selection::OpenDirectory(path) => SelectionModel::OpenDirectory(path@),
            Selection::Nothing => SelectionModel::Nothing,
        }
    }
}

/// The open directory, if any, and the paths of its immediate children in
/// the order in which they were enumerated.
#[derive(Clone, Debug, PartialEq, Eq)]
pub struct DirectoryView {
    pub current_dir: Option<String>,
    pub entries: Vec<String>,
}

/// A [`DirectoryView`] as a value of specifications.
pub struct DirectoryModel {
    pub current_dir: Option<Seq<char>>,
    pub entries: Seq<Seq<char>>,
}

impl View for DirectoryView {
    type V = DirectoryModel;

    open spec fn view(&self) -> DirectoryModel {
        DirectoryModel {
            current_dir: self.current_dir.deep_view(),
            entries: self.entries.deep_view(),
        }
    }
}

/// The paths of an enumeration, in its order, without the entries that could
/// not be read.
pub open spec fn listed_paths(items: Seq<Option<Seq<char>>>) -> Seq<Seq<char>>
    decreases items.len(),
{
    if items.len() == 0 {
        Seq::empty()
    } else {
        match items.last() {
            Some(path) => listed_paths(items.drop_last()).push(path),
            None => listed_paths(items.drop_last()),
        }
    }
}

/// The number of entries of an enumeration that could not be read.
pub open spec fn unreadable(items: Seq<Option<Seq<char>>>) -> nat
    decreases items.len(),
{
    if items.len() == 0 {
        0
    } else {
        match items.last() {
            Some(_) => unreadable(items.drop_last()),
            None => unreadable(items.drop_last()) + 1,
        }
    }
}

/// Every entry of an enumeration is either listed or counted as unreadable.
pub proof fn lemma_listed_or_unreadable(items: Seq<Option<Seq<char>>>)
    ensures
        listed_paths(items).len() + unreadable(items) == items.len(),
    decreases items.len(),
{
    if items.len() > 0 {
        lemma_listed_or_unreadable(items.drop_last());
    }
}

/// A path is listed exactly if the enumeration read it.
pub proof fn lemma_listed_paths_members(items: Seq<Option<Seq<char>>>, path: Seq<char>)
    ensures
        listed_paths(items).contains(path) <==> items.contains(Some(path)),
    decreases items.len(),
{
    if items.len() == 0 {
    } else {
        let before = items.drop_last();
        lemma_listed_paths_members(before, path);
        let listed = listed_paths(items);
        if items.contains(Some(path)) {
            let i = choose|i: int| 0 <= i < items.len() && items[i] == Some(path);
            if i < before.len() {
                assert(before[i] == Some(path));
                let j = choose|j: int|
                    0 <= j < listed_paths(before).len() && listed_paths(before)[j] == path;
                assert(listed[j] == path);
            } else {
                assert(listed[listed.len() - 1] == path);
            }
        }
        if listed.contains(path) {
            let j = choose|j: int| 0 <= j < listed.len() && listed[j] == path;
            if j < listed_paths(before).len() {
                assert(listed_paths(before)[j] == path);
                let i = choose|i: int| 0 <= i < before.len() && before[i] == Some(path);
                assert(items[i] == Some(path));
            } else {
                assert(items[items.len() - 1] == Some(path));
            }
        }
    }
}

impl DirectoryModel {
    /// The browser of a fresh editor: no directory and no entries.
    pub open spec fn empty() -> DirectoryModel {
        DirectoryModel { current_dir: None, entries: Seq::empty() }
    }

    /// The browser after its directory was enumerated anew: the entries are
    /// the paths that the enumeration read, and none where no directory is
    /// open or the directory could not be enumerated.
    pub open spec fn refreshed(self, listing: Option<Seq<Option<Seq<char>>>>) -> DirectoryModel {
        DirectoryModel {
            current_dir: self.current_dir,
            entries: match (self.current_dir, listing) {
                (Some(_), Some(items)) => listed_paths(items),
                _ => Seq::empty(),
            },
        }
    }

    /// The number of children that a new enumeration of the open directory
    /// leaves out because they could not be read.
    pub open spec fn skipped(self, listing: Option<Seq<Option<Seq<char>>>>) -> nat {
        match (self.current_dir, listing) {
            (Some(_), Some(items)) => unreadable(items),
            _ => 0,
        }
    }

    /// The browser after `path` was opened and enumerated.
    pub open spec fn opened(
        self,
        path: Seq<char>,
        listing: Option<Seq<Option<Seq<char>>>>,
    ) -> DirectoryModel {
        DirectoryModel { current_dir: Some(path), entries: self.entries }.refreshed(listing)
    }

    /// The path at which a file named `name` is to be created: the name,
    /// trimmed, below the open directory. There is none while no directory is
    /// open.
    pub open spec fn new_file_target(self, name: Seq<char>) -> Option<Seq<char>> {
        match self.current_dir {
            Some(dir) => Some(joined_path(dir, trimmed(name))),
            None => None,
        }
    }

    /// The browser after an attempt to create `target`: a file that was
    /// created is added behind the other entries; any other outcome changes
    /// nothing.
    pub open spec fn file_created(self, target: Seq<char>, outcome: CreateOutcome) -> DirectoryModel {
        if outcome == CreateOutcome::Created {
            DirectoryModel { current_dir: self.current_dir, entries: self.entries.push(target) }
        } else {
            self
        }
    }

    /// What follows from selecting entry `index`, which the file system says
    /// is a `kind`.
    pub open spec fn selection(self, index: int, kind: EntryKind) -> SelectionModel {
        if 0 <= index < self.entries.len() {
            match kind {
                EntryKind::File => SelectionModel::LoadFile(self.entries[index]),
                EntryKind::Directory => SelectionModel::OpenDirectory(self.entries[index]),
                EntryKind::Other => SelectionModel::Nothing,
            }
        } else {
            SelectionModel::Nothing
        }
    }
}

/// After a directory was opened and enumerated, the entries are exactly
/// the children that the enumeration read: each of them is listed, and
/// nothing else is.
pub proof fn lemma_opened_lists_children(
    state: DirectoryModel,
    dir: Seq<char>,
    items: Seq<Option<Seq<char>>>,
    path: Seq<char>,
)
    ensures
        state.opened(dir, Some(items)).entries.contains(path) <==> items.contains(Some(path)),
        state.opened(dir, Some(items)).refreshed(Some(items)) == state.opened(dir, Some(items)),
        state.opened(dir, Some(items)).entries.len() + unreadable(items) == items.len(),
{
    lemma_listed_paths_members(items, path);
    lemma_listed_or_unreadable(items);
}

/// Creating a file is recorded once: after the attempt that created it, an
/// attempt that finds it in place changes nothing, so the listing has grown
/// by that one entry and no more.
pub proof fn lemma_created_once(state: DirectoryModel, target: Seq<char>)
    ensures
        state.file_created(target, CreateOutcome::Created).file_created(
            target,
            CreateOutcome::AlreadyExists,
        ) == state.file_created(target, CreateOutcome::Created),
        state.file_created(target, CreateOutcome::Created).entries == state.entries.push(target),
        state.file_created(target, CreateOutcome::Created).entries.last() == target,
{
}

impl DirectoryView {
    /// A browser with no directory open.
    pub fn new() -> (view: DirectoryView)
        ensures
            view@ == DirectoryModel::empty(),
    {
        let view = DirectoryView { current_dir: None, entries: Vec::new() };
        assert(view.entries.deep_view() =~= Seq::empty());
        view
    }

    /// Makes `path` the open directory and takes in its enumeration. Returns
    /// the number of children that could not be read.
    pub fn open_directory(&mut self, path: String, listing: Option<Vec<Option<String>>>) -> (skipped:
        usize)
        ensures
            final(self)@ == old(self)@.opened(path@, listing.deep_view()),
            skipped == final(self)@.skipped(listing.deep_view()),
    {
        self.current_dir = Some(path);
        self.refresh(listing)
    }

    /// Replaces the entries by a new enumeration of the open directory:
    /// `None` where the directory could not be enumerated, else one item for
    /// each child, `None` for a child that could not be read. Such children
    /// are left out and counted; the others are listed in the order given.
    /// Returns the count.
    pub fn refresh(&mut self, listing: Option<Vec<Option<String>>>) -> (skipped: usize)
        ensures
            final(self)@ == old(self)@.refreshed(listing.deep_view()),
            skipped == old(self)@.skipped(listing.deep_view()),
    {
        self.entries.clear();
        assert(self.entries.deep_view() =~= Seq::empty());
        if self.current_dir.is_none() {
            return 0;
        }
        let mut skipped: usize = 0;
        if let Some(items) = listing {
            let ghost all = items.deep_view();
            let mut i: usize = 0;
            while i < items.len()
                invariant
                    i <= items.len(),
                    all == items.deep_view(),
                    self.current_dir == old(self).current_dir,
                    self.entries.deep_view() == listed_paths(all.take(i as int)),
                    skipped == unreadable(all.take(i as int)),
                    skipped <= i,
                decreases items.len() - i,
            {
                let ghost listed = self.entries.deep_view();
                proof {
                    assert(all.take(i + 1).drop_last() =~= all.take(i as int));
                    assert(all.take(i + 1).last() == items[i as int].deep_view());
                }
                match &items[i] {
                    Some(path) => {
                        self.entries.push(path.clone());
                        assert(self.entries.deep_view() =~= listed.push(path@));
                    },
                    None => {
                        skipped += 1;
                    },
                }
                i += 1;
            }
            assert(all.take(i as int) =~= all);
        }
        skipped
    }

    /// The path at which a file named `name` is to be created, if a directory
    /// is open.
    pub fn new_file_target(&self, name: &str) -> (target: Option<String>)
        ensures
            target.deep_view() == self@.new_file_target(name@),
    {
        match &self.current_dir {
            Some(dir) => {
                let core = trim(name);
                Some(join_path(dir.as_str(), core.as_str()))
            },
            None => None,
        }
    }

    /// Takes in how the attempt to create `target` ended. Returns whether the
    /// listing has grown.
    pub fn file_created(&mut self, target: String, outcome: CreateOutcome) -> (listed: bool)
        ensures
            final(self)@ == old(self)@.file_created(target@, outcome),
            listed == (outcome == CreateOutcome::Created),
    {
        match outcome {
            CreateOutcome::Created => {
                let ghost before = self.entries.deep_view();
                self.entries.push(target);
                assert(self.entries.deep_view() =~= before.push(target@));
                true
            },
            _ => false,
        }
    }

    /// What follows from selecting entry `index` of the listing.
    pub fn select(&self, index: usize, kind: EntryKind) -> (selection: Selection)
        ensures
            selection@ == self@.selection(index as int, kind),
    {
        if index < self.entries.len() {
            match kind {
                EntryKind::File => Selection::LoadFile(self.entries[index].clone()),
                EntryKind::Directory => Selection::OpenDirectory(self.entries[index].clone()),
                EntryKind::Other => Selection::Nothing,
            }
        } else {
            Selection::Nothing
        }
    }
}

} // verus!
