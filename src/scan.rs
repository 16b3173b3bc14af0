//! The scan producer's decisions: for each item the directory walker hands
//! over, whether to send a new catalog entry, skip, or stop the walk.
use crate::file::File;
use crate::filter::{accept_entry, accepted};
use crate::util::lower_hex_digit;
use vstd::prelude::*;

verus! {

/// Capacity of the channel between the scan producer and the persister.
pub const CHANNEL_BUFFER_SIZE: usize = 10000;

/// Root walked when a scan names none.
pub const DEFAULT_VOLUMES_PATH: &'static str = "/Volumes";

/// The scan command, with an optional root to walk.
#[derive(Debug)]
pub enum ScanCommand {
    Scan { name: Option<String> },
}

/// The default root, as characters.
pub open spec fn default_root() -> Seq<char> {
    seq!['/', 'V', 'o', 'l', 'u', 'm', 'e', 's']
}

impl ScanCommand {
    /// The root to walk: the one given, or the default volumes root.
    pub fn root(&self) -> (r: String)
        ensures
            match self {
                ScanCommand::Scan { name: Some(n) } => r@ == n@,
                ScanCommand::Scan { name: None } => r@ == default_root(),
            },
    {
        match self {
            ScanCommand::Scan { name: Some(n) } => n.clone(),
            ScanCommand::Scan { name: None } => {
                proof {
                    reveal_strlit("/Volumes");
                }
                let r = String::from_str(DEFAULT_VOLUMES_PATH);
                assert(r@ =~= default_root());
                r
            },
        }
    }
}

/// What the directory walker produced next.
#[derive(Debug)]
pub enum WalkItem {
    /// A discovered entry: its absolute path, base name and kind.
    Entry { path: String, name: String, is_dir: bool },
    /// A subtree that could not be read for lack of permission.
    PermissionDenied,
    /// Any other traversal error.
    Failed,
    /// The walk is over.
    Exhausted,
}

/// What the producer does with a walker item.
#[derive(Debug)]
pub enum ScanAction {
    /// Send this entry to the persister.
    Send(File),
    /// Go on to the next item.
    Skip,
    /// End the walk and close the channel.
    Stop,
}

/// The producer's state: the identity it tags entries with, how many entries
/// it has sent, and whether the walk has ended.
#[derive(Debug)]
pub struct ScanProducer {
    pub hostname: String,
    pub total: u64,
    pub done: bool,
}

/// The count after one more entry, held at the largest `u64`.
pub open spec fn count_after(total: u64) -> u64 {
    if total < u64::MAX {
        (total + 1) as u64
    } else {
        total
    }
}

impl ScanProducer {
    /// A producer that has sent nothing yet.
    pub fn new(hostname: String) -> (r: ScanProducer)
        ensures
            r.hostname@ == hostname@,
            r.total == 0,
            !r.done,
    {
        ScanProducer { hostname, total: 0, done: false }
    }

    /// Handles one walker item; `timestamp` is the current instant in
    /// nanoseconds since the Unix epoch. Accepted entries become new catalog
    /// entries and are counted; a denied subtree is passed over; any other
    /// error, or the end of the walk, stops the producer for good.
    pub fn step(&mut self, item: WalkItem, timestamp: i64) -> (r: ScanAction)
        ensures
            final(self).hostname@ == old(self).hostname@,
            old(self).done ==> r is Stop && final(self).done && final(self).total == old(self).total,
            !old(self).done ==> match item {
                WalkItem::Entry { path, name, is_dir } => if accepted(path@, name@, is_dir) {
                    &&& r matches ScanAction::Send(f) && f.full_path@ == path@ && f.file_name@
                        == name@ && f.dir == is_dir && f.hostname@ == old(self).hostname@
                        && f.timestamp == timestamp && f.id@.len() == 32 && (forall|i: int|
                        0 <= i < 32 ==> lower_hex_digit(#[trigger] f.id@[i]))
                    &&& final(self).total == count_after(old(self).total)
                    &&& !final(self).done
                } else {
                    &&& r is Skip
                    &&& final(self).total == old(self).total
                    &&& !final(self).done
                },
                WalkItem::PermissionDenied => {
                    &&& r is Skip
                    &&& final(self).total == old(self).total
                    &&& !final(self).done
                },
                _ => {
                    &&& r is Stop
                    &&& final(self).total == old(self).total
                    &&& final(self).done
                },
            },
    {
        if self.done {
            return ScanAction::Stop;
        }
        match item {
            WalkItem::Entry { path, name, is_dir } => {
                if !accept_entry(path.as_str(), name.as_str(), is_dir) {
                    return ScanAction::Skip;
                }
                let f = File::new(path, name, is_dir, Some(self.hostname.clone()), timestamp);
                if self.total < u64::MAX {
                    self.total = self.total + 1;
                }
                ScanAction::Send(f)
            },
            WalkItem::PermissionDenied => ScanAction::Skip,
            _ => {
                self.done = true;
                ScanAction::Stop
            },
        }
    }
}

} // verus!
