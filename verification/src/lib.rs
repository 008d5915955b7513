//! Content-transfer orchestration for a peer-to-peer content-addressed
//! storage node.
//!
//! The crate verifies the decision logic of the transfer layer: a ledger of
//! client batches holding content pins, a failover state machine that fetches
//! content from a list of candidate peers, a planner for handing fetches to a
//! shared download queue, and the orchestrator that sequences a whole
//! download (pin, fetch, progress event, tag persistence, pin release).
//!
//! Connections, the store and the download queue are outside services; an
//! embedder drives the state machines, performing each emitted action and
//! feeding the observed outcome back as an event.

pub mod batches;
pub mod content;
pub mod direct;
pub mod download;
pub mod queued;
