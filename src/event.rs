//! Events: the append-only history of changes to the catalog.
use crate::file::{File, FileView};
use crate::util::{identity_of, local_identity, uuid_v4};
use vstd::prelude::*;

verus! {

/// The kind of change an event records.
#[derive(Debug, Clone, Copy, PartialEq, Eq, Structural)]
pub enum EventType {
    Create,
    Delete,
}

/// How an event kind is written in the store.
pub open spec fn event_type_text(t: EventType) -> Seq<char> {
    match t {
        EventType::Create => seq!['c', 'r', 'e', 'a', 't', 'e'],
        EventType::Delete => seq!['d', 'e', 'l', 'e', 't', 'e'],
    }
}

impl EventType {
    /// The text stored for this event kind.
    pub fn as_text(&self) -> (r: String)
        ensures
            r@ == event_type_text(*self),
    {
        match self {
            EventType::Create => {
                proof {
                    reveal_strlit("create");
                }
                let r = String::from_str("create");
                assert(r@ =~= event_type_text(*self));
                r
            },
            EventType::Delete => {
                proof {
                    reveal_strlit("delete");
                }
                let r = String::from_str("delete");
                assert(r@ =~= event_type_text(*self));
                r
            },
        }
    }
}

/// One state change, recorded as a self-contained snapshot of its subject.
/// `timestamp` is in nanoseconds since the Unix epoch, UTC.
#[derive(Debug, Clone)]
pub struct Event {
    pub id: String,
    pub timestamp: i64,
    pub hostname: String,
    pub event_type: EventType,
    pub full_path: String,
}

/// What an event holds.
pub struct EventView {
    pub id: Seq<char>,
    pub timestamp: int,
    pub hostname: Seq<char>,
    pub event_type: EventType,
    pub full_path: Seq<char>,
}

impl View for Event {
    type V = EventView;

    open spec fn view(&self) -> EventView {
        EventView {
            id: self.id@,
            timestamp: self.timestamp as int,
            hostname: self.hostname@,
            event_type: self.event_type,
            full_path: self.full_path@,
        }
    }
}

/// The creation event paired with an entry. It shares the entry's id, so an
/// entry has at most one creation event.
pub open spec fn create_event_of(f: FileView) -> EventView {
    EventView {
        id: f.id,
        timestamp: f.timestamp,
        hostname: f.hostname,
        event_type: EventType::Create,
        full_path: f.full_path,
    }
}

impl Event {
    /// The creation event for a newly inserted entry.
    pub fn new_create(f: &File) -> (r: Event)
        ensures
            r@ == create_event_of(f@),
    {
        Event {
            id: f.id.clone(),
            timestamp: f.timestamp,
            hostname: f.hostname.clone(),
            event_type: EventType::Create,
            full_path: f.full_path.clone(),
        }
    }

    /// A deletion event for the entry at `full_path`, with a fresh id and
    /// tagged with this process's `<host>:<user>`.
    pub fn new_delete(full_path: &str, timestamp: i64) -> (r: Event)
        ensures
            r.event_type == EventType::Delete,
            r.full_path@ == full_path@,
            r.timestamp == timestamp,
            r.id@.len() == 32,
            exists|h: Seq<char>, u: Seq<char>| r.hostname@ == identity_of(h, u),
    {
        Event {
            id: uuid_v4(),
            timestamp,
            hostname: local_identity(),
            event_type: EventType::Delete,
            full_path: String::from_str(full_path),
        }
    }
}

} // verus!
