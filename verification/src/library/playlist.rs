use crate::ids::{fresh_uuid, now, position_of, uuid_bits, Timestamp};
use crate::paths::{file_name_utf8_of, path_file_name_utf8};
use std::path::PathBuf;
use uuid::Uuid;
use vstd::prelude::*;
use vstd::string::StringExecFns;

verus! {

/// A named list of tracks in which no track occurs twice.
pub struct Playlist {
    pub id: Uuid,
    pub name: String,
    pub track_ids: Vec<Uuid>,
    pub created_at: Timestamp,
    pub modified_at: Timestamp,
    pub file_path: Option<PathBuf>,
}

/// Whether `id` is among `ids`.
pub open spec fn holds_id(ids: Seq<Uuid>, id: Uuid) -> bool {
    exists|i: int| 0 <= i < ids.len() && uuid_bits(#[trigger] ids[i]) == uuid_bits(id)
}

/// No identifier occurs at two places of `ids`.
pub open spec fn distinct_ids(ids: Seq<Uuid>) -> bool {
    forall|i: int, j: int|
        0 <= i < j < ids.len() ==> uuid_bits(#[trigger] ids[i]) != uuid_bits(#[trigger] ids[j])
}

impl Playlist {
    /// An empty playlist called `name`, with a new identifier and created
    /// now.
    pub fn new(name: &str) -> (playlist: Self)
        ensures
            playlist.name@ == name@,
            playlist.track_ids@.len() == 0,
            playlist.created_at == playlist.modified_at,
            playlist.file_path is None,
    {
        let created = now();
        Playlist {
            id: fresh_uuid(),
            name: String::from_str(name),
            track_ids: Vec::new(),
            created_at: created,
            modified_at: created,
            file_path: None,
        }
    }

    /// Appends a track that the playlist does not hold yet and notes the
    /// time of the change. A track that it holds already is not added again,
    /// and nothing changes.
    pub fn add_track(&mut self, track_id: Uuid)
        ensures
            final(self).id == old(self).id,
            final(self).name == old(self).name,
            final(self).created_at == old(self).created_at,
            final(self).file_path == old(self).file_path,
            holds_id(old(self).track_ids@, track_id) ==> *final(self) == *old(self),
            !holds_id(old(self).track_ids@, track_id) ==> final(self).track_ids@ == old(
                self,
            ).track_ids@.push(track_id),
            distinct_ids(old(self).track_ids@) ==> distinct_ids(final(self).track_ids@),
    {
        match position_of(&self.track_ids, &track_id) {
            Some(_) => {},
            None => {
                self.track_ids.push(track_id);
                self.modified_at = now();
            },
        }
    }

    /// The number of tracks in the playlist.
    pub fn len(&self) -> (n: usize)
        ensures
            n == self.track_ids@.len(),
    {
        self.track_ids.len()
    }
}

/// A folder whose tracks are in the library.
pub struct LoadedFolder {
    pub path: PathBuf,
    pub name: String,
    pub track_count: usize,
    pub added_at: Timestamp,
    pub is_watched: bool,
}

/// The name under which a folder is listed: the last component of its path,
/// or "Unknown" where the path has none that is valid Unicode.
pub open spec fn folder_name_of(path: PathBuf) -> Seq<char> {
    match file_name_utf8_of(path) {
        Some(name) => name,
        None => "Unknown"@,
    }
}

impl LoadedFolder {
    /// A folder that is loaded once and not watched.
    pub fn new(path: PathBuf) -> (folder: Self)
        ensures
            folder.path == path,
            folder.name@ == folder_name_of(path),
            folder.track_count == 0,
            !folder.is_watched,
    {
        Self::with_watched(path, false)
    }

    /// A folder that is kept in step with the file system.
    pub fn new_watched(path: PathBuf) -> (folder: Self)
        ensures
            folder.path == path,
            folder.name@ == folder_name_of(path),
            folder.track_count == 0,
            folder.is_watched,
    {
        Self::with_watched(path, true)
    }

    /// A folder without tracks yet, added now.
    pub fn with_watched(path: PathBuf, is_watched: bool) -> (folder: Self)
        ensures
            folder.path == path,
            folder.name@ == folder_name_of(path),
            folder.track_count == 0,
            folder.is_watched == is_watched,
    {
        let name = match path_file_name_utf8(&path) {
            Some(n) => n,
            None => String::from_str("Unknown"),
        };
        LoadedFolder { path, name, track_count: 0, added_at: now(), is_watched }
    }
}

} // verus!
