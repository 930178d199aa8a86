//! Directory-listing entries and the choice of the browser's starting
//! directory.
//!
//! The filesystem walk itself is the I/O layer's business; what is kept here
//! is the shape of one listed entry — a directory never reports a size — and
//! the fallback order for the initial path.

use vstd::prelude::*;

verus! {

/// One entry of a directory listing.
#[derive(Debug)]
pub struct FileInfo {
    /// The entry's own name.
    pub name: String,
    /// Its full path.
    pub path: String,
    /// Whether the entry is a directory.
    pub is_dir: bool,
    /// Size in bytes; never reported for a directory.
    pub size: Option<u64>,
    /// Whether the entry is read-only.
    pub readonly: bool,
    /// Modification time in milliseconds since the epoch, when known.
    pub modified: Option<u64>,
}

impl FileInfo {
    /// Describe one entry: a directory carries no size, a file carries
    /// `len`.
    pub fn new(
        name: String,
        path: String,
        is_dir: bool,
        len: u64,
        readonly: bool,
        modified: Option<u64>,
    ) -> (r: FileInfo)
        ensures
            r.name == name,
            r.path == path,
            r.is_dir == is_dir,
            r.size == (if is_dir {
                None::<u64>
            } else {
                Some(len)
            }),
            r.readonly == readonly,
            r.modified == modified,
    {
        let size = if is_dir {
            None
        } else {
            Some(len)
        };
        FileInfo { name, path, is_dir, size, readonly, modified }
    }
}

/// The starting directory of the file browser: the executable's directory
/// when it is known, else the home directory, else the application-data
/// directory, else nothing.
pub fn choose_initial_path(
    exe_dir: Option<String>,
    home_dir: Option<String>,
    data_dir: Option<String>,
) -> (r: Option<String>)
    ensures
        r == (if exe_dir is Some {
            exe_dir
        } else if home_dir is Some {
            home_dir
        } else {
            data_dir
        }),
{
    match exe_dir {
        Some(p) => Some(p),
        None => match home_dir {
            Some(p) => Some(p),
            None => data_dir,
        },
    }
}

} // verus!
