//! The indexable record: the canonical representation of one filesystem
//! node, as it is submitted to the remote search index.

use vstd::prelude::*;

verus! {

use crate::config::opt_str_view;
use crate::entry_id::uuid_of;
use crate::scan::spec_is_hidden_name;

/// Whether an indexed filesystem node is a file or a folder.
#[derive(Clone, Copy, PartialEq, Eq, Structural, Debug)]
pub enum IndexEntryType {
    File,
    Folder,
}

/// The mathematical view of one indexable record.
pub struct EntryView {
    pub uuid: Seq<char>,
    pub path: Seq<char>,
    pub name: Seq<char>,
    pub entry_type: IndexEntryType,
    pub size: Option<u64>,
    pub modified_date: Option<i64>,
    pub is_hidden: bool,
    pub preview: Option<Seq<char>>,
    pub project_id: Seq<char>,
    pub entry_last_updated: i64,
}

/// One entry of the search index: a single file or folder of one project,
/// refreshed by the walk whose reference time is `entry_last_updated`.
/// Timestamps are Unix seconds; `modified_date` is best effort and absent
/// when the filesystem could not supply it.
#[derive(Clone, Debug)]
pub struct FileSystemEntry {
    pub uuid: String,
    pub path: String,
    pub name: String,
    pub entry_type: IndexEntryType,
    pub size: Option<u64>,
    pub modified_date: Option<i64>,
    pub is_hidden: bool,
    pub preview: Option<String>,
    pub project_id: String,
    pub entry_last_updated: i64,
}

impl View for FileSystemEntry {
    type V = EntryView;

    open spec fn view(&self) -> EntryView {
        EntryView {
            uuid: self.uuid@,
            path: self.path@,
            name: self.name@,
            entry_type: self.entry_type,
            size: self.size,
            modified_date: self.modified_date,
            is_hidden: self.is_hidden,
            preview: opt_str_view(self.preview),
            project_id: self.project_id@,
            entry_last_updated: self.entry_last_updated,
        }
    }
}

/// The internal consistency of a record: its id is derived from its path,
/// a size is present exactly for files, the hidden flag follows the name
/// convention, and no preview is produced at creation.
pub open spec fn entry_wf(e: EntryView) -> bool {
    &&& e.uuid == uuid_of(e.path)
    &&& (e.entry_type is File <==> e.size is Some)
    &&& e.is_hidden == spec_is_hidden_name(e.name)
    &&& e.preview is None
}

} // verus!
