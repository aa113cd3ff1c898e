//! The state of one explorer window and what each interaction does to it.

use crate::duration::{
    age_text, days_in, hours_in, minutes_in, seconds_in, weeks_in, Duration,
};
use crate::entry::{ChildRecord, DirectoryEntry};
use crate::navigation::NavigationState;
use crate::size::{bytesize_text, format_size};
use crate::snapshot::{build_snapshot, is_snapshot};
use crate::text::{decimal_string, decimal_text};
use std::path::PathBuf;
use vstd::prelude::*;
use vstd::string::StringExecFns;

verus! {

/// A step asked of the caller, who alone can reach the file system. After a
/// rename or a removal, whether it went well or not, the caller reads the
/// current directory again and refreshes the listing, as it does for
/// `Relist`.
#[derive(Clone, Debug, PartialEq, Eq)]
pub enum Action {
    Nothing,
    /// Read the current directory and refresh the listing.
    Relist,
    /// Hand the file to the system's default handler, without waiting.
    OpenFile(PathBuf),
    /// Rename `from` to `to`.
    Rename { from: PathBuf, to: PathBuf },
    /// Remove the directory with all that it holds.
    RemoveTree(PathBuf),
    /// Remove the one file.
    RemoveFile(PathBuf),
}

/// An explorer window: where it started, where it is, what is selected or
/// being renamed, and the listing of the current directory as last read.
#[derive(Clone, Debug, PartialEq, Eq)]
pub struct ExplorerApp {
    pub initial_path: PathBuf,
    pub navigation: NavigationState,
    pub selected_entry: Option<usize>,
    pub renaming_entry: Option<usize>,
    pub renaming_string: String,
    pub current_dir_items: Vec<DirectoryEntry>,
    /// Whether the directory could not be read when the listing was last
    /// made, so that an empty listing can be told from an empty directory.
    pub listing_failed: bool,
}

impl ExplorerApp {
    /// A window at `initial_path` with nothing listed, selected or renamed.
    pub fn new(initial_path: PathBuf) -> (app: ExplorerApp)
        ensures
            app.initial_path == initial_path,
            app.navigation@.current == initial_path,
            app.navigation@.back.len() == 0,
            app.navigation@.forward.len() == 0,
            app.selected_entry is None,
            app.renaming_entry is None,
            app.renaming_string@.len() == 0,
            app.current_dir_items@.len() == 0,
            !app.listing_failed,
    {
        let navigation = NavigationState::new(initial_path.clone());
        ExplorerApp {
            initial_path,
            navigation,
            selected_entry: None,
            renaming_entry: None,
            renaming_string: String::new(),
            current_dir_items: Vec::new(),
            listing_failed: false,
        }
    }

    /// Whether nothing but the navigation and the selection differs between
    /// the two.
    pub open spec fn same_listing(self, other: ExplorerApp) -> bool {
        &&& self.initial_path == other.initial_path
        &&& self.renaming_entry == other.renaming_entry
        &&& self.renaming_string == other.renaming_string
        &&& self.current_dir_items == other.current_dir_items
        &&& self.listing_failed == other.listing_failed
    }

    /// Goes to `new_path`, drops the selection and asks for the new
    /// directory to be listed. Until it has been, the listing is that of the
    /// directory left.
    pub fn change_dir(&mut self, new_path: PathBuf) -> (action: Action)
        ensures
            action == Action::Relist,
            final(self).navigation@ == old(self).navigation@.navigate(new_path),
            final(self).selected_entry is None,
            final(self).same_listing(*old(self)),
    {
        self.selected_entry = None;
        self.navigation.navigate(new_path);
        Action::Relist
    }

    /// Steps back in the history. Where there is nothing to step back to,
    /// nothing changes and nothing is asked; else the selection is dropped
    /// and a listing asked for.
    pub fn previous_dir(&mut self) -> (action: Action)
        ensures
            final(self).navigation@ == old(self).navigation@.go_back(),
            final(self).same_listing(*old(self)),
            old(self).navigation@.back.len() > 0 ==> action == Action::Relist && final(self).selected_entry is None,
            old(self).navigation@.back.len() == 0 ==> action == Action::Nothing && final(self).selected_entry == old(self).selected_entry,
    {
        if self.navigation.go_back() {
            self.selected_entry = None;
            Action::Relist
        } else {
            Action::Nothing
        }
    }

    /// Steps forward in the history. Where there is nothing to step forward
    /// to, nothing changes and nothing is asked; else the selection is
    /// dropped and a listing asked for.
    pub fn forward_dir(&mut self) -> (action: Action)
        ensures
            final(self).navigation@ == old(self).navigation@.go_forward(),
            final(self).same_listing(*old(self)),
            old(self).navigation@.forward.len() > 0 ==> action == Action::Relist && final(self).selected_entry is None,
            old(self).navigation@.forward.len() == 0 ==> action == Action::Nothing && final(self).selected_entry == old(self).selected_entry,
    {
        if self.navigation.go_forward() {
            self.selected_entry = None;
            Action::Relist
        } else {
            Action::Nothing
        }
    }

    /// Goes up one level as to any new path, where a directory holds the
    /// current one; else nothing changes and nothing is asked.
    pub fn previous_level(&mut self) -> (action: Action)
        ensures
            final(self).same_listing(*old(self)),
            final(self).navigation@ == old(self).navigation@.go_up(
                crate::paths::parent_of(old(self).navigation.current),
            ),
            crate::paths::parent_of(old(self).navigation.current) is Some ==> action
                == Action::Relist && final(self).selected_entry is None,
            crate::paths::parent_of(old(self).navigation.current) is None ==> action
                == Action::Nothing && final(self).selected_entry == old(self).selected_entry,
    {
        if self.navigation.go_up() {
            self.selected_entry = None;
            Action::Relist
        } else {
            Action::Nothing
        }
    }

    /// Replaces the listing by the snapshot of `reading`, the children of
    /// the current directory as just read, or by an empty one where the
    /// directory could not be read.
    pub fn update_dir_entries(&mut self, reading: Option<Vec<ChildRecord>>)
        ensures
            match reading {
                Some(children) => is_snapshot(final(self).current_dir_items@, children@) && !final(self).listing_failed,
                None => final(self).current_dir_items@.len() == 0 && final(self).listing_failed,
            },
            final(self).navigation == old(self).navigation,
            final(self).initial_path == old(self).initial_path,
            final(self).selected_entry == old(self).selected_entry,
            final(self).renaming_entry == old(self).renaming_entry,
            final(self).renaming_string == old(self).renaming_string,
    {
        match reading {
            Some(children) => {
                self.current_dir_items = build_snapshot(&children);
                self.listing_failed = false;
            },
            None => {
                self.current_dir_items = Vec::new();
                self.listing_failed = true;
            },
        }
    }

    /// Drops the selection and lists the current directory anew from
    /// `reading`. The histories stay as they are.
    pub fn refresh_dir(&mut self, reading: Option<Vec<ChildRecord>>)
        ensures
            match reading {
                Some(children) => is_snapshot(final(self).current_dir_items@, children@) && !final(self).listing_failed,
                None => final(self).current_dir_items@.len() == 0 && final(self).listing_failed,
            },
            final(self).selected_entry is None,
            final(self).navigation == old(self).navigation,
            final(self).initial_path == old(self).initial_path,
            final(self).renaming_entry == old(self).renaming_entry,
            final(self).renaming_string == old(self).renaming_string,
    {
        self.selected_entry = None;
        self.update_dir_entries(reading);
    }

    /// A size in bytes as `bytesize` writes it with decimal units.
    pub fn size_to_string(bytes: usize) -> (text: String)
        ensures
            text@ == bytesize_text(bytes as u64, false),
            bytes < 1_000 ==> text@ == decimal_text(bytes as int) + " B"@,
    {
        format_size(bytes as u64, false)
    }

    /// How long ago `duration` lies, in words.
    pub fn duration_to_string(duration: &Duration) -> (text: String)
        ensures
            text@ == age_text(duration.secs()),
    {
        proof {
            use_type_invariant(duration);
        }
        let (count, unit) = if weeks_in(duration) >= 1 {
            (weeks_in(duration), " weeks ago")
        } else if days_in(duration) >= 1 {
            (days_in(duration), " days ago")
        } else if hours_in(duration) >= 1 {
            (days_in(duration), " hours ago")
        } else if minutes_in(duration) >= 1 {
            (minutes_in(duration), " minutes ago")
        } else {
            (seconds_in(duration), " seconds ago")
        };
        let mut text = decimal_string(count);
        text.append(unit);
        text
    }
}

} // verus!
