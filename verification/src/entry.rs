//! One child of a directory: what was read of it, and the entry that a
//! listing shows for it.

use crate::duration::{age_from_nanos, elapsed_span, Duration};
use std::path::PathBuf;
use vstd::prelude::*;

verus! {

/// The three ways a listing tells its entries apart.
#[derive(Clone, Copy, Debug, PartialEq, Eq, Structural)]
pub enum EntryKind {
    File,
    Folder,
    /// Neither a regular file nor a directory, a dangling link for one.
    Other,
}

/// One of the three times that a file system keeps of a file, as it stood
/// against the clock when the directory was read.
#[derive(Clone, Copy, Debug, PartialEq, Eq, Structural)]
pub enum Timestamp {
    /// The file system does not keep this time.
    Unavailable,
    /// The time lies after the clock's reading, so nothing has elapsed.
    Ahead,
    /// So many nanoseconds have passed since.
    Elapsed(u128),
}

/// What the metadata of a child says.
#[derive(Clone, Copy, Debug, PartialEq, Eq, Structural)]
pub struct FileFacts {
    pub is_file: bool,
    pub is_dir: bool,
    pub len: u64,
    pub readonly: bool,
    pub modified: Timestamp,
    pub accessed: Timestamp,
    pub created: Timestamp,
}

/// A child of a directory as it was read: its base name, if that is valid
/// Unicode, its path, and its metadata, if that could be had.
#[derive(Clone, Debug, PartialEq, Eq)]
pub struct ChildRecord {
    pub name: Option<String>,
    pub path: PathBuf,
    pub facts: Option<FileFacts>,
}

/// An entry of a listing. It is made once, from one reading of the child,
/// and never changed afterwards.
#[derive(Clone, Debug, PartialEq, Eq)]
pub struct DirectoryEntry {
    pub kind: EntryKind,
    pub name: String,
    pub path: PathBuf,
    pub extension: String,
    pub size_bytes: u64,
    pub permissions_summary: String,
    pub modified_age: Option<Duration>,
    pub accessed_age: Option<Duration>,
    pub created_age: Option<Duration>,
}

/// An entry with its texts as sequences of characters.
pub struct EntryView {
    pub kind: EntryKind,
    pub name: Seq<char>,
    pub path: PathBuf,
    pub extension: Seq<char>,
    pub size_bytes: u64,
    pub permissions_summary: Seq<char>,
    pub modified_age: Option<Duration>,
    pub accessed_age: Option<Duration>,
    pub created_age: Option<Duration>,
}

impl View for DirectoryEntry {
    type V = EntryView;

    open spec fn view(&self) -> EntryView {
        EntryView {
            kind: self.kind,
            name: self.name@,
            path: self.path,
            extension: self.extension@,
            size_bytes: self.size_bytes,
            permissions_summary: self.permissions_summary@,
            modified_age: self.modified_age,
            accessed_age: self.accessed_age,
            created_age: self.created_age,
        }
    }
}

/// The text that is there, or the empty text.
pub open spec fn text_or_empty(found: Option<String>) -> Seq<char> {
    match found {
        Some(text) => text@,
        None => Seq::empty(),
    }
}

/// The kind of a child. A directory is a folder, whatever else the metadata
/// says of it; what is no directory is a file if the metadata calls it a
/// regular file, and `Other` if not. So the folders of a listing are exactly
/// the children that are directories.
pub open spec fn kind_of(facts: FileFacts) -> EntryKind {
    if facts.is_dir {
        EntryKind::Folder
    } else if facts.is_file {
        EntryKind::File
    } else {
        EntryKind::Other
    }
}

/// `"r"` for what may only be read, `"rw"` for the rest.
pub open spec fn permissions_of(readonly: bool) -> Seq<char> {
    if readonly {
        "r"@
    } else {
        "rw"@
    }
}

/// The time since a timestamp, where there is one and it has passed.
pub open spec fn age_of(stamp: Timestamp) -> Option<Duration> {
    match stamp {
        Timestamp::Elapsed(nanos) => elapsed_span(nanos),
        _ => None,
    }
}

/// The entry for a child with the given metadata and extension.
pub open spec fn entry_of(child: ChildRecord, facts: FileFacts, extension: Option<String>) -> EntryView {
    EntryView {
        kind: kind_of(facts),
        name: text_or_empty(child.name),
        path: child.path,
        extension: text_or_empty(extension),
        size_bytes: facts.len,
        permissions_summary: permissions_of(facts.readonly),
        modified_age: age_of(facts.modified),
        accessed_age: age_of(facts.accessed),
        created_age: age_of(facts.created),
    }
}

pub fn classify(facts: &FileFacts) -> (kind: EntryKind)
    ensures
        kind == kind_of(*facts),
{
    if facts.is_dir {
        EntryKind::Folder
    } else if facts.is_file {
        EntryKind::File
    } else {
        EntryKind::Other
    }
}

pub fn permissions_text(readonly: bool) -> (text: String)
    ensures
        text@ == permissions_of(readonly),
{
    if readonly {
        "r".to_string()
    } else {
        "rw".to_string()
    }
}

pub fn age(stamp: Timestamp) -> (elapsed: Option<Duration>)
    ensures
        elapsed == age_of(stamp),
{
    match stamp {
        Timestamp::Elapsed(nanos) => age_from_nanos(nanos),
        _ => None,
    }
}

fn owned_or_empty(found: &Option<String>) -> (text: String)
    ensures
        text@ == text_or_empty(*found),
{
    match found {
        Some(text) => text.clone(),
        None => String::new(),
    }
}

/// Builds the entry for `child` from its metadata and from the extension
/// found in its path. A text that could not be had is left empty; a time that
/// could not be had, or that does not convert, is left out.
pub fn describe(child: &ChildRecord, facts: &FileFacts, extension: Option<String>) -> (entry:
    DirectoryEntry)
    ensures
        entry@ == entry_of(*child, *facts, extension),
{
    DirectoryEntry {
        kind: classify(facts),
        name: owned_or_empty(&child.name),
        path: child.path.clone(),
        extension: owned_or_empty(&extension),
        size_bytes: facts.len,
        permissions_summary: permissions_text(facts.readonly),
        modified_age: age(facts.modified),
        accessed_age: age(facts.accessed),
        created_age: age(facts.created),
    }
}

} // verus!
