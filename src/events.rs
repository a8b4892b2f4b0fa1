//! Document entries and events as the caller receives them, and ticket
//! information.
use vstd::prelude::*;
use crate::author::IrohAuthorId;
use crate::buffer::{IrohOwnedBytes, TextArg};

verus! {

/// An entry of a document as the sync engine reports it.
pub struct EntryRecord {
    pub author: [u8; 32],
    pub key: Vec<u8>,
    /// The content hash, in its text form.
    pub content_hash: String,
    pub content_len: u64,
    /// Microseconds since the epoch.
    pub timestamp: u64,
}

/// A document entry handed to the caller, who releases it with
/// [`iroh_doc_entry_free`].
pub struct IrohDocEntry {
    pub author_id: IrohAuthorId,
    pub key: IrohOwnedBytes,
    pub content_hash: String,
    pub content_size: u64,
    pub timestamp: u64,
}

/// An entry for the caller, with each field carried over unchanged.
pub fn convert_entry(e: EntryRecord) -> (r: IrohDocEntry)
    ensures
        r.author_id.bytes == e.author,
        r.key.data@ == e.key@,
        r.content_hash == e.content_hash,
        r.content_size == e.content_len,
        r.timestamp == e.timestamp,
{
    let EntryRecord { author, key, content_hash, content_len, timestamp } = e;
    IrohDocEntry {
        author_id: IrohAuthorId { bytes: author },
        key: IrohOwnedBytes::from_vec(key),
        content_hash,
        content_size: content_len,
        timestamp,
    }
}

/// Releases an entry handed to the caller, with its key and hash text.
pub fn iroh_doc_entry_free(entry: IrohDocEntry) {
    let IrohDocEntry { author_id: _, key, content_hash: _, content_size: _, timestamp: _ } = entry;
    crate::buffer::iroh_bytes_free(key);
}

/// The kinds of document event.
#[derive(Clone, Copy, PartialEq, Eq, Structural, Debug)]
pub enum IrohDocEventType {
    /// This node inserted an entry.
    InsertLocal,
    /// A peer's entry arrived.
    InsertRemote,
    /// Content of an entry seen before is now local.
    ContentReady,
    /// Every content download outstanding has finished.
    PendingContentReady,
    /// A peer joined the swarm.
    NeighborUp,
    /// A peer left the swarm.
    NeighborDown,
    /// Sync with a peer finished.
    SyncFinished,
}

/// A document event as the sync engine reports it; peers and hashes are in
/// their text form.
pub enum LiveEventRecord {
    InsertLocal { entry: EntryRecord },
    InsertRemote { from: String, entry: EntryRecord },
    ContentReady { hash: String },
    PendingContentReady,
    NeighborUp { peer: String },
    NeighborDown { peer: String },
    SyncFinished { peer: String },
}

/// A document event handed to the caller, who releases it with
/// [`iroh_doc_event_free`]. Only the fields its kind carries are present.
pub struct IrohDocEvent {
    pub event_type: IrohDocEventType,
    pub entry: Option<IrohDocEntry>,
    pub peer_id: Option<String>,
    pub content_hash: Option<String>,
}

/// The kind of a reported event.
pub open spec fn event_type_of(ev: LiveEventRecord) -> IrohDocEventType {
    match ev {
        LiveEventRecord::InsertLocal { .. } => IrohDocEventType::InsertLocal,
        LiveEventRecord::InsertRemote { .. } => IrohDocEventType::InsertRemote,
        LiveEventRecord::ContentReady { .. } => IrohDocEventType::ContentReady,
        LiveEventRecord::PendingContentReady => IrohDocEventType::PendingContentReady,
        LiveEventRecord::NeighborUp { .. } => IrohDocEventType::NeighborUp,
        LiveEventRecord::NeighborDown { .. } => IrohDocEventType::NeighborDown,
        LiveEventRecord::SyncFinished { .. } => IrohDocEventType::SyncFinished,
    }
}

/// The peer that a reported event names, if its kind names one.
pub open spec fn peer_of(ev: LiveEventRecord) -> Option<String> {
    match ev {
        LiveEventRecord::InsertRemote { from, .. } => Some(from),
        LiveEventRecord::NeighborUp { peer } => Some(peer),
        LiveEventRecord::NeighborDown { peer } => Some(peer),
        LiveEventRecord::SyncFinished { peer } => Some(peer),
        _ => None,
    }
}

/// The entry that a reported event carries, if its kind carries one.
pub open spec fn entry_of(ev: LiveEventRecord) -> Option<EntryRecord> {
    match ev {
        LiveEventRecord::InsertLocal { entry } => Some(entry),
        LiveEventRecord::InsertRemote { entry, .. } => Some(entry),
        _ => None,
    }
}

/// Whether `d` is `e` as handed to the caller.
pub open spec fn entry_converted(d: IrohDocEntry, e: EntryRecord) -> bool {
    &&& d.author_id.bytes == e.author
    &&& d.key.data@ == e.key@
    &&& d.content_hash == e.content_hash
    &&& d.content_size == e.content_len
    &&& d.timestamp == e.timestamp
}

/// An event for the caller: its kind, its entry for inserts, its peer for
/// remote inserts and swarm events, its hash for ready content.
pub fn convert_live_event(ev: LiveEventRecord) -> (r: IrohDocEvent)
    ensures
        r.event_type == event_type_of(ev),
        r.peer_id == peer_of(ev),
        r.entry is Some == entry_of(ev) is Some,
        r.entry is Some ==> entry_converted(r.entry->Some_0, entry_of(ev)->Some_0),
        r.content_hash == (match ev {
            LiveEventRecord::ContentReady { hash } => Some(hash),
            _ => None::<String>,
        }),
{
    match ev {
        LiveEventRecord::InsertLocal { entry } => IrohDocEvent {
            event_type: IrohDocEventType::InsertLocal,
            entry: Some(convert_entry(entry)),
            peer_id: None,
            content_hash: None,
        },
        LiveEventRecord::InsertRemote { from, entry } => IrohDocEvent {
            event_type: IrohDocEventType::InsertRemote,
            entry: Some(convert_entry(entry)),
            peer_id: Some(from),
            content_hash: None,
        },
        LiveEventRecord::ContentReady { hash } => IrohDocEvent {
            event_type: IrohDocEventType::ContentReady,
            entry: None,
            peer_id: None,
            content_hash: Some(hash),
        },
        LiveEventRecord::PendingContentReady => IrohDocEvent {
            event_type: IrohDocEventType::PendingContentReady,
            entry: None,
            peer_id: None,
            content_hash: None,
        },
        LiveEventRecord::NeighborUp { peer } => IrohDocEvent {
            event_type: IrohDocEventType::NeighborUp,
            entry: None,
            peer_id: Some(peer),
            content_hash: None,
        },
        LiveEventRecord::NeighborDown { peer } => IrohDocEvent {
            event_type: IrohDocEventType::NeighborDown,
            entry: None,
            peer_id: Some(peer),
            content_hash: None,
        },
        LiveEventRecord::SyncFinished { peer } => IrohDocEvent {
            event_type: IrohDocEventType::SyncFinished,
            entry: None,
            peer_id: Some(peer),
            content_hash: None,
        },
    }
}

/// Releases an event handed to the caller, with whatever it carries.
pub fn iroh_doc_event_free(event: IrohDocEvent) {
    let IrohDocEvent { event_type: _, entry, peer_id: _, content_hash: _ } = event;
    match entry {
        Some(e) => iroh_doc_entry_free(e),
        None => {},
    }
}

/// Share mode of a document ticket.
#[derive(Clone, Copy, PartialEq, Eq, Structural, Debug)]
pub enum IrohDocShareMode {
    Read,
    Write,
}

/// Format of a blob named by a ticket or a tag.
#[derive(Clone, Copy, PartialEq, Eq, Structural, Debug)]
pub enum IrohBlobFormat {
    /// One blob.
    Raw,
    /// A sequence of hashes naming other blobs.
    HashSeq,
}

/// The fields of a blob ticket that parsed.
pub struct ParsedTicket {
    pub hash: String,
    pub node_id: String,
    pub recursive: bool,
}

/// What validating a ticket reports; fields past `is_valid` are present
/// only for a valid ticket.
pub struct IrohTicketInfo {
    pub is_valid: bool,
    pub hash: Option<String>,
    pub node_id: Option<String>,
    pub is_recursive: bool,
}

/// The report on a ticket argument, given what parsing its text gave. It is
/// always produced: invalid input is a result, not a failure.
pub fn ticket_info(ticket: &TextArg, parsed: Option<ParsedTicket>) -> (r: IrohTicketInfo)
    ensures
        r.is_valid == (ticket is Text && parsed is Some),
        r.is_valid ==> r.hash == Some(parsed->Some_0.hash) && r.node_id == Some(parsed->Some_0.node_id)
            && r.is_recursive == parsed->Some_0.recursive,
        !r.is_valid ==> r.hash is None && r.node_id is None && !r.is_recursive,
{
    let invalid = IrohTicketInfo { is_valid: false, hash: None, node_id: None, is_recursive: false };
    match ticket {
        TextArg::Text(_) => match parsed {
            Some(p) => IrohTicketInfo {
                is_valid: true,
                hash: Some(p.hash),
                node_id: Some(p.node_id),
                is_recursive: p.recursive,
            },
            None => invalid,
        },
        _ => invalid,
    }
}

} // verus!
