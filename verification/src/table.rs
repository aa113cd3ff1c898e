//! What the rows of the listing ask for when they are opened, renamed or
//! removed. Nothing here touches the file system: each decision names the
//! step that the caller is to take.

use crate::entry::EntryKind;
use crate::explorer::{Action, ExplorerApp};
use crate::paths::{child_path, joined_path, parent_dir, parent_of};
use std::path::PathBuf;
use vstd::prelude::*;

verus! {

/// The words for the kind of an entry. A file goes by what its content was
/// found to be, or by `"File"` where that could not be found out.
pub open spec fn type_label_of(kind: EntryKind, sniffed: Option<String>) -> Seq<char> {
    match kind {
        EntryKind::File => match sniffed {
            Some(media_type) => media_type@,
            None => "File"@,
        },
        EntryKind::Folder => "Folder"@,
        EntryKind::Other => "Symlink"@,
    }
}

pub fn type_label(kind: EntryKind, sniffed: Option<String>) -> (label: String)
    ensures
        label@ == type_label_of(kind, sniffed),
{
    match kind {
        EntryKind::File => match sniffed {
            Some(media_type) => media_type,
            None => "File".to_string(),
        },
        EntryKind::Folder => "Folder".to_string(),
        EntryKind::Other => "Symlink".to_string(),
    }
}

impl ExplorerApp {
    /// Whether a row of that number is listed.
    pub open spec fn has_row(self, row: usize) -> bool {
        row < self.current_dir_items@.len()
    }

    /// The row that is being renamed, if it is one of the listing.
    pub open spec fn renamed_row(self) -> Option<usize> {
        match self.renaming_entry {
            Some(row) if self.has_row(row) => Some(row),
            _ => None,
        }
    }

    /// Whether nothing but the selection differs between the two.
    pub open spec fn same_but_selection(self, other: ExplorerApp) -> bool {
        &&& self.navigation == other.navigation
        &&& self.same_listing(other)
    }

    /// Selects a row.
    pub fn select_entry(&mut self, row: usize)
        ensures
            final(self).selected_entry == Some(row),
            final(self).same_but_selection(*old(self)),
    {
        self.selected_entry = Some(row);
    }

    /// A row was opened by a double click. A file is handed to the system
    /// and stays selected; anything else is gone into, as into a directory.
    pub fn activate_entry(&mut self, row: usize) -> (action: Action)
        ensures
            !old(self).has_row(row) ==> action == Action::Nothing && *final(self) == *old(self),
            old(self).has_row(row) ==> {
                let entry = old(self).current_dir_items@[row as int];
                if entry.kind == EntryKind::File {
                    &&& action == Action::OpenFile(entry.path)
                    &&& final(self).selected_entry == Some(row)
                    &&& final(self).same_but_selection(*old(self))
                } else {
                    &&& action == Action::Relist
                    &&& final(self).navigation@ == old(self).navigation@.navigate(entry.path)
                    &&& final(self).selected_entry is None
                    &&& final(self).same_listing(*old(self))
                }
            },
    {
        if row >= self.current_dir_items.len() {
            return Action::Nothing;
        }
        let path = self.current_dir_items[row].path.clone();
        if self.current_dir_items[row].kind == EntryKind::File {
            self.selected_entry = Some(row);
            Action::OpenFile(path)
        } else {
            self.change_dir(path)
        }
    }

    /// A row was opened from its menu. `exists` says whether its path is
    /// still there; where it is not, nothing happens.
    pub fn open_entry(&mut self, row: usize, exists: bool) -> (action: Action)
        ensures
            !(old(self).has_row(row) && exists) ==> action == Action::Nothing && *final(self)
                == *old(self),
            old(self).has_row(row) && exists ==> {
                let entry = old(self).current_dir_items@[row as int];
                if entry.kind == EntryKind::File {
                    &&& action == Action::OpenFile(entry.path)
                    &&& *final(self) == *old(self)
                } else {
                    &&& action == Action::Relist
                    &&& final(self).navigation@ == old(self).navigation@.navigate(entry.path)
                    &&& final(self).selected_entry is None
                    &&& final(self).same_listing(*old(self))
                }
            },
    {
        if row >= self.current_dir_items.len() || !exists {
            return Action::Nothing;
        }
        let path = self.current_dir_items[row].path.clone();
        if self.current_dir_items[row].kind == EntryKind::File {
            Action::OpenFile(path)
        } else {
            self.change_dir(path)
        }
    }

    /// Starts renaming a row: the text to edit begins as the entry's name.
    /// A row that is not listed is not renamed.
    pub fn begin_rename(&mut self, row: usize)
        ensures
            !old(self).has_row(row) ==> *final(self) == *old(self),
            old(self).has_row(row) ==> {
                &&& final(self).renaming_entry == Some(row)
                &&& final(self).renaming_string@ == old(self).current_dir_items@[row as int].name@
                &&& final(self).navigation == old(self).navigation
                &&& final(self).initial_path == old(self).initial_path
                &&& final(self).selected_entry == old(self).selected_entry
                &&& final(self).current_dir_items == old(self).current_dir_items
                &&& final(self).listing_failed == old(self).listing_failed
            },
    {
        if row < self.current_dir_items.len() {
            self.renaming_entry = Some(row);
            self.renaming_string = self.current_dir_items[row].name.clone();
        }
    }

    /// The path that the row being renamed would get: the new name inside
    /// the directory that holds the entry. There is none where no listed row
    /// is being renamed, or where no directory holds the entry, as for a
    /// root.
    pub fn rename_target(&self) -> (target: Option<PathBuf>)
        ensures
            target == self.rename_target_of(),
    {
        match self.renaming_entry {
            Some(row) => {
                if row < self.current_dir_items.len() {
                    match parent_dir(&self.current_dir_items[row].path) {
                        Some(dir) => Some(child_path(&dir, &self.renaming_string)),
                        None => None,
                    }
                } else {
                    None
                }
            },
            None => None,
        }
    }

    /// The path that the text being edited names: the text as a name inside
    /// the directory that holds the entry being renamed.
    pub open spec fn rename_target_of(self) -> Option<PathBuf> {
        match self.renamed_row() {
            Some(row) => match parent_of(self.current_dir_items@[row as int].path) {
                Some(dir) => Some(joined_path(dir, self.renaming_string@)),
                None => None,
            },
            None => None,
        }
    }

    /// Whether the text being edited is to be marked as taken: it differs
    /// from the entry's name, and `target_exists` says that the path it would
    /// get is there already.
    pub fn rename_conflict(&self, target_exists: bool) -> (taken: bool)
        ensures
            taken == (self.renamed_row() matches Some(row) && self.current_dir_items@[row as int].name@
                != self.renaming_string@ && target_exists),
    {
        match self.renaming_entry {
            Some(row) => {
                row < self.current_dir_items.len() && self.current_dir_items[row].name
                    != self.renaming_string && target_exists
            },
            None => false,
        }
    }

    /// The step that ends a renaming, for the states in which one is going
    /// on: a rename of the entry to `target`, if the new name was committed,
    /// there is a target and nothing exists there yet; else only a new
    /// listing.
    pub open spec fn rename_outcome(
        self,
        committed: bool,
        target: Option<PathBuf>,
        target_exists: bool,
    ) -> Action {
        match (self.renamed_row(), target) {
            (Some(row), Some(to)) if committed && !target_exists => Action::Rename {
                from: self.current_dir_items@[row as int].path,
                to,
            },
            _ => Action::Relist,
        }
    }

    /// The text being edited lost the focus, with the new name committed or
    /// not. `target` is the path the entry would get and `target_exists`
    /// whether something is there already: a name that is taken is never
    /// given, and nothing is overwritten. Either way the renaming is over.
    /// Where none was going on, nothing happens.
    pub fn finish_rename(
        &mut self,
        committed: bool,
        target: Option<PathBuf>,
        target_exists: bool,
    ) -> (action: Action)
        ensures
            old(self).renaming_entry is None ==> action == Action::Nothing && *final(self) == *old(self),
            old(self).renaming_entry is Some ==> {
                &&& action == old(self).rename_outcome(committed, target, target_exists)
                &&& final(self).renaming_entry is None
                &&& final(self).renaming_string@.len() == 0
                &&& final(self).navigation == old(self).navigation
                &&& final(self).initial_path == old(self).initial_path
                &&& final(self).selected_entry == old(self).selected_entry
                &&& final(self).current_dir_items == old(self).current_dir_items
                &&& final(self).listing_failed == old(self).listing_failed
            },
            target_exists ==> !(action is Rename),
    {
        let row = match self.renaming_entry {
            Some(row) => row,
            None => {
                return Action::Nothing;
            },
        };
        self.renaming_entry = None;
        self.renaming_string = String::new();
        if committed && !target_exists && row < self.current_dir_items.len() {
            match target {
                Some(to) => Action::Rename { from: self.current_dir_items[row].path.clone(), to },
                None => Action::Relist,
            }
        } else {
            Action::Relist
        }
    }

    /// A row is to be removed: a folder with all that it holds, anything
    /// else as the one file that it is.
    pub fn remove_entry(&self, row: usize) -> (action: Action)
        ensures
            action == if !self.has_row(row) {
                Action::Nothing
            } else if self.current_dir_items@[row as int].kind == EntryKind::Folder {
                Action::RemoveTree(self.current_dir_items@[row as int].path)
            } else {
                Action::RemoveFile(self.current_dir_items@[row as int].path)
            },
    {
        if row >= self.current_dir_items.len() {
            Action::Nothing
        } else if self.current_dir_items[row].kind == EntryKind::Folder {
            Action::RemoveTree(self.current_dir_items[row].path.clone())
        } else {
            Action::RemoveFile(self.current_dir_items[row].path.clone())
        }
    }
}

} // verus!
