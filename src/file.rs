//! The catalog entry: the current-state record of one file or directory.
use crate::util::{local_identity, uuid_v4, identity_of, lower_hex_digit};
use vstd::prelude::*;

verus! {

/// One discovered file or directory. `timestamp` is the discovery instant in
/// nanoseconds since the Unix epoch, UTC.
#[derive(Debug, Clone)]
pub struct File {
    pub id: String,
    pub full_path: String,
    pub file_name: String,
    pub hostname: String,
    pub dir: bool,
    pub timestamp: i64,
}

/// What a catalog entry holds.
pub struct FileView {
    pub id: Seq<char>,
    pub full_path: Seq<char>,
    pub file_name: Seq<char>,
    pub hostname: Seq<char>,
    pub dir: bool,
    pub timestamp: int,
}

impl View for File {
    type V = FileView;

    open spec fn view(&self) -> FileView {
        FileView {
            id: self.id@,
            full_path: self.full_path@,
            file_name: self.file_name@,
            hostname: self.hostname@,
            dir: self.dir,
            timestamp: self.timestamp as int,
        }
    }
}

impl File {
    /// A record for a newly discovered entry, with a fresh identity. Without a
    /// `hostname` the entry is tagged with this process's `<host>:<user>`.
    pub fn new(
        full_path: String,
        file_name: String,
        dir: bool,
        hostname: Option<String>,
        timestamp: i64,
    ) -> (r: File)
        ensures
            r.full_path@ == full_path@,
            r.file_name@ == file_name@,
            r.dir == dir,
            r.timestamp == timestamp,
            r.id@.len() == 32,
            forall|i: int| 0 <= i < 32 ==> lower_hex_digit(#[trigger] r.id@[i]),
            match hostname {
                Some(h) => r.hostname@ == h@,
                None => exists|h: Seq<char>, u: Seq<char>| r.hostname@ == identity_of(h, u),
            },
    {
        let hostname = match hostname {
            Some(h) => h,
            None => local_identity(),
        };
        File { id: uuid_v4(), full_path, file_name, hostname, dir, timestamp }
    }
}

} // verus!
