//! Plain-value models of the data the transfer layer decides over: content
//! identifiers, peer addresses, transfer statistics, content pins, and the
//! error taxonomy surfaced to callers.

use vstd::prelude::*;

verus! {

/// A 256-bit content identifier, held as four 64-bit words.
#[derive(Clone, Copy, Debug, PartialEq, Eq, Structural)]
pub struct ContentHash {
    pub w0: u64,
    pub w1: u64,
    pub w2: u64,
    pub w3: u64,
}

/// The shape of the content behind a hash: a single raw blob, or a sequence
/// of hashes naming a collection.
#[derive(Clone, Copy, Debug, PartialEq, Eq, Structural)]
pub enum BlobFormat {
    Raw,
    HashSeq,
}

/// A content key: identifier plus format. The unit that pins, tags and
/// fetches are keyed by.
#[derive(Clone, Copy, Debug, PartialEq, Eq, Structural)]
pub struct HashAndFormat {
    pub hash: ContentHash,
    pub format: BlobFormat,
}

/// A 256-bit peer identity, held as four 64-bit words.
#[derive(Clone, Copy, Debug, PartialEq, Eq, Structural)]
pub struct NodeId {
    pub w0: u64,
    pub w1: u64,
    pub w2: u64,
    pub w3: u64,
}

/// What the transfer layer reads of a candidate peer address: its identity,
/// and whether the address carries any routing information (a peer named by
/// identity alone can still be reached when discovery is available).
#[derive(Clone, Copy, Debug, PartialEq, Eq, Structural)]
pub struct NodeAddr {
    pub node_id: NodeId,
    pub has_addr_info: bool,
}

/// Counters reported by the transfer engine for one completed fetch; carried
/// through unread.
#[derive(Clone, Copy, Debug, PartialEq, Eq, Structural)]
pub struct DownloadStats {
    pub bytes_written: u64,
    pub bytes_read: u64,
    pub elapsed_micros: u64,
}

/// A pin keeping one piece of content alive in the store while held. The
/// ledger takes ownership of pins and drops them when they are removed.
#[derive(Clone, Debug)]
pub struct ContentPin {
    pub key: HashAndFormat,
}

impl ContentPin {
    /// Makes a pin for `key`.
    pub fn new(key: HashAndFormat) -> (r: ContentPin)
        ensures
            r.key == key,
    {
        ContentPin { key }
    }

    /// The content key this pin holds alive.
    pub fn hash_and_format(&self) -> (r: HashAndFormat)
        ensures
            r == self.key,
    {
        self.key
    }
}

/// A caller-chosen name for a persistent tag, held as four 64-bit words and
/// carried through unread; an embedder maps its real tag names onto these
/// labels.
#[derive(Clone, Copy, Debug, PartialEq, Eq, Structural)]
pub struct TagName {
    pub w0: u64,
    pub w1: u64,
    pub w2: u64,
    pub w3: u64,
}

/// Identifier of one client batch in the ledger: allocated monotonically,
/// never reused.
#[derive(Clone, Copy, Debug, PartialEq, Eq, Structural)]
pub struct BatchId(pub u64);

/// The errors the transfer layer surfaces. Codes carried inside variants
/// stand for the underlying error values of the outside services, which this
/// layer aggregates but does not interpret.
#[derive(Clone, Copy, Debug, PartialEq, Eq, Structural)]
pub enum DownloadError {
    /// A batch or key the caller named holds no pin; recoverable.
    TagNotFound,
    /// No viable candidate peer existed before any attempt was made.
    NoReachablePeer,
    /// Every candidate was attempted and failed; carries the last
    /// underlying error.
    AllPeersFailed { last: u64 },
    /// The storage engine failed; fatal to the current operation.
    StoreError { code: u64 },
    /// A single connection attempt failed; aggregated by failover, never
    /// surfaced directly by the fetch paths.
    ConnectionError { code: u64 },
}

} // verus!
