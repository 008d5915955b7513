//! The direct failover fetch: a step-wise state machine that drives an
//! external get engine and a connection endpoint to fetch one content key
//! from a list of candidate peers, in caller-supplied order.
//!
//! The machine owns the decisions only. An embedder performs each returned
//! [`DirectAction`] against the outside world (stepping the engine, opening
//! a connection, resuming the transfer) and feeds the observed outcome back
//! as a [`DirectEvent`]. Candidates equal to the node's own identity are
//! skipped; a failed connection moves to the next candidate without
//! consulting the engine; a failed resume records the error and re-invokes
//! the engine, which may by then be able to finish from partial progress.

use vstd::prelude::*;

use crate::content::{DownloadError, DownloadStats, NodeAddr, NodeId};

verus! {

/// Where the machine stands: what it is waiting on.
#[derive(Clone, Copy, Debug, PartialEq, Eq, Structural)]
pub enum DirectPhase {
    /// Waiting for the engine step's outcome.
    StepEngine,
    /// Waiting for the outcome of a connection attempt.
    Connecting,
    /// Waiting for the outcome of resuming the transfer on a connection.
    Proceeding,
    /// The fetch is over; no further event is accepted.
    Finished,
}

/// What the outside world reports back after performing an action. Error
/// payloads are opaque codes standing for the underlying errors.
#[derive(Clone, Copy, Debug, PartialEq, Eq)]
pub enum DirectEvent {
    /// The engine finished without needing a connection.
    EngineComplete(DownloadStats),
    /// The engine needs a live connection to a peer to make progress.
    EngineNeedsConn,
    /// The engine itself failed; fatal to the fetch.
    EngineFailed(u64),
    /// The connection to the chosen candidate is up.
    ConnectOk,
    /// The connection attempt failed.
    ConnectFailed(u64),
    /// Resuming on the connection completed the transfer.
    ProceedOk(DownloadStats),
    /// Resuming on the connection failed.
    ProceedFailed(u64),
}

/// What the embedder must do next.
#[derive(Clone, Copy, Debug, PartialEq, Eq)]
pub enum DirectAction {
    /// Invoke the engine's step function.
    StepEngine,
    /// Open a connection to this candidate.
    Connect(NodeAddr),
    /// Resume the transfer on the connection just opened.
    Proceed,
    /// The fetch is over with this outcome.
    Finish(Result<DownloadStats, DownloadError>),
}

/// The least candidate index at or after `from` whose identity differs from
/// `self_id`; `None` when every remaining candidate is the node itself.
pub open spec fn first_usable(nodes: Seq<NodeAddr>, self_id: NodeId, from: int) -> Option<int>
    decreases nodes.len() - from,
{
    if from < 0 || from >= nodes.len() {
        None
    } else if nodes[from].node_id != self_id {
        Some(from)
    } else {
        first_usable(nodes, self_id, from + 1)
    }
}

proof fn lemma_first_usable(nodes: Seq<NodeAddr>, self_id: NodeId, from: int)
    requires
        0 <= from <= nodes.len(),
    ensures
        match first_usable(nodes, self_id, from) {
            Some(i) => from <= i < nodes.len() && nodes[i].node_id != self_id && forall|j: int|
                from <= j < i ==> (#[trigger] nodes[j]).node_id == self_id,
            None => forall|j: int|
                from <= j < nodes.len() ==> (#[trigger] nodes[j]).node_id == self_id,
        },
    decreases nodes.len() - from,
{
    if from < nodes.len() && nodes[from].node_id == self_id {
        lemma_first_usable(nodes, self_id, from + 1);
    }
}

/// The terminal error once the candidates are exhausted: the last recorded
/// connection or resume error if any attempt was made, else the distinct
/// no-candidates error.
pub open spec fn exhausted_error(last_err: Option<u64>) -> DownloadError {
    match last_err {
        Some(code) => DownloadError::AllPeersFailed { last: code },
        None => DownloadError::NoReachablePeer,
    }
}

/// The failover fetch state: the node's own identity, the candidate list in
/// caller order, the next candidate to try, the last recorded attempt error,
/// and the phase.
pub struct DirectFetch {
    pub self_id: NodeId,
    pub nodes: Vec<NodeAddr>,
    pub pos: usize,
    pub last_err: Option<u64>,
    pub phase: DirectPhase,
}

impl DirectFetch {
    /// The candidate cursor never runs past the list.
    pub open spec fn wf(self) -> bool {
        self.pos <= self.nodes@.len()
    }

    /// Which events the machine can take in its current phase.
    pub open spec fn accepts(self, e: DirectEvent) -> bool {
        match self.phase {
            DirectPhase::StepEngine => e is EngineComplete || e is EngineNeedsConn
                || e is EngineFailed,
            DirectPhase::Connecting => e is ConnectOk || e is ConnectFailed,
            DirectPhase::Proceeding => e is ProceedOk || e is ProceedFailed,
            DirectPhase::Finished => false,
        }
    }

    /// Scanning for the next candidate: skip the node's own identity; when a
    /// usable candidate exists, ask for a connection to it and move the
    /// cursor past it; when the list is exhausted, finish with the
    /// aggregated error.
    pub open spec fn scan_spec(s: DirectFetch) -> (DirectFetch, DirectAction) {
        match first_usable(s.nodes@, s.self_id, s.pos as int) {
            Some(i) => (
                DirectFetch { pos: (i + 1) as usize, phase: DirectPhase::Connecting, ..s },
                DirectAction::Connect(s.nodes@[i]),
            ),
            None => (
                DirectFetch {
                    pos: s.nodes@.len() as usize,
                    phase: DirectPhase::Finished,
                    ..s
                },
                DirectAction::Finish(Err(exhausted_error(s.last_err))),
            ),
        }
    }

    /// The whole transition relation of the machine.
    pub open spec fn step_spec(s: DirectFetch, e: DirectEvent) -> (DirectFetch, DirectAction) {
        match e {
            DirectEvent::EngineComplete(stats) => (
                DirectFetch { phase: DirectPhase::Finished, ..s },
                DirectAction::Finish(Ok(stats)),
            ),
            DirectEvent::EngineFailed(code) => (
                DirectFetch { phase: DirectPhase::Finished, ..s },
                DirectAction::Finish(Err(DownloadError::StoreError { code })),
            ),
            DirectEvent::EngineNeedsConn => Self::scan_spec(s),
            DirectEvent::ConnectOk => (
                DirectFetch { phase: DirectPhase::Proceeding, ..s },
                DirectAction::Proceed,
            ),
            DirectEvent::ConnectFailed(code) => Self::scan_spec(
                DirectFetch { last_err: Some(code), ..s },
            ),
            DirectEvent::ProceedOk(stats) => (
                DirectFetch { phase: DirectPhase::Finished, ..s },
                DirectAction::Finish(Ok(stats)),
            ),
            DirectEvent::ProceedFailed(code) => (
                DirectFetch { phase: DirectPhase::StepEngine, last_err: Some(code), ..s },
                DirectAction::StepEngine,
            ),
        }
    }

    /// A fresh fetch for one target: no candidate tried yet, no error
    /// recorded, waiting to step the engine for the first time.
    pub fn new(self_id: NodeId, nodes: Vec<NodeAddr>) -> (r: DirectFetch)
        ensures
            r.wf(),
            r.self_id == self_id,
            r.nodes == nodes,
            r.pos == 0,
            r.last_err is None,
            r.phase is StepEngine,
    {
        DirectFetch { self_id, nodes, pos: 0, last_err: None, phase: DirectPhase::StepEngine }
    }

    /// Takes the outcome of the previous action and decides the next one,
    /// exactly as [`DirectFetch::step_spec`] says. A connect action never
    /// targets the node's own identity, and targets the candidate just
    /// before the new cursor: each candidate is attempted at most once, in
    /// list order.
    pub fn step(&mut self, event: DirectEvent) -> (a: DirectAction)
        requires
            old(self).wf(),
            old(self).accepts(event),
        ensures
            final(self).wf(),
            ({
                let (s2, act) = Self::step_spec(*old(self), event);
                *final(self) == s2 && a == act
            }),
            old(self).pos <= final(self).pos,
            (a matches DirectAction::Connect(n) ==> n.node_id != old(self).self_id
                && final(self).pos >= 1 && n == old(self).nodes@[final(self).pos - 1]),
    {
        match event {
            DirectEvent::EngineComplete(stats) => {
                self.phase = DirectPhase::Finished;
                DirectAction::Finish(Ok(stats))
            },
            DirectEvent::EngineFailed(code) => {
                self.phase = DirectPhase::Finished;
                DirectAction::Finish(Err(DownloadError::StoreError { code }))
            },
            DirectEvent::EngineNeedsConn => self.scan_connect(),
            DirectEvent::ConnectOk => {
                self.phase = DirectPhase::Proceeding;
                DirectAction::Proceed
            },
            DirectEvent::ConnectFailed(code) => {
                self.last_err = Some(code);
                self.scan_connect()
            },
            DirectEvent::ProceedOk(stats) => {
                self.phase = DirectPhase::Finished;
                DirectAction::Finish(Ok(stats))
            },
            DirectEvent::ProceedFailed(code) => {
                self.last_err = Some(code);
                self.phase = DirectPhase::StepEngine;
                DirectAction::StepEngine
            },
        }
    }

    fn scan_connect(&mut self) -> (a: DirectAction)
        requires
            old(self).wf(),
        ensures
            final(self).wf(),
            ({
                let (s2, act) = Self::scan_spec(*old(self));
                *final(self) == s2 && a == act
            }),
            old(self).pos <= final(self).pos,
            (a matches DirectAction::Connect(n) ==> n.node_id != old(self).self_id
                && final(self).pos >= 1 && n == old(self).nodes@[final(self).pos - 1]),
    {
        loop
            invariant
                self.wf(),
                self.self_id == old(self).self_id,
                self.nodes == old(self).nodes,
                self.last_err == old(self).last_err,
                self.phase == old(self).phase,
                old(self).pos <= self.pos,
                first_usable(self.nodes@, self.self_id, old(self).pos as int) == first_usable(
                    self.nodes@,
                    self.self_id,
                    self.pos as int,
                ),
            decreases self.nodes@.len() - self.pos,
        {
            if self.pos >= self.nodes.len() {
                self.phase = DirectPhase::Finished;
                let err = match self.last_err {
                    Some(code) => DownloadError::AllPeersFailed { last: code },
                    None => DownloadError::NoReachablePeer,
                };
                return DirectAction::Finish(Err(err));
            }
            let node = self.nodes[self.pos];
            if node.node_id == self.self_id {
                self.pos = self.pos + 1;
            } else {
                self.pos = self.pos + 1;
                self.phase = DirectPhase::Connecting;
                return DirectAction::Connect(node);
            }
        }
    }
}

// ---------------------------------------------------------------------------
// Laws of the failover fetch
// ---------------------------------------------------------------------------

/// When the engine asks for a connection and the candidate list holds
/// nothing but the node's own identity from the cursor on — in particular
/// when it is empty — and no attempt has failed yet, the fetch finishes with
/// `NoReachablePeer`, and no connect action is emitted.
pub proof fn lemma_direct_no_reachable(s: DirectFetch)
    requires
        s.wf(),
        s.phase is StepEngine,
        s.last_err is None,
        forall|i: int|
            s.pos <= i < s.nodes@.len() ==> (#[trigger] s.nodes@[i]).node_id == s.self_id,
    ensures
        DirectFetch::step_spec(s, DirectEvent::EngineNeedsConn).1 == DirectAction::Finish(
            Err(DownloadError::NoReachablePeer),
        ),
        DirectFetch::step_spec(s, DirectEvent::EngineNeedsConn).0.phase is Finished,
{
    lemma_first_usable(s.nodes@, s.self_id, s.pos as int);
}

/// When the candidates are exhausted (only the node's own identity remains
/// past the cursor), the fetch finishes with the aggregated error: the last
/// failure when one was recorded — in particular, a connection failure that
/// exhausts the list yields `AllPeersFailed` wrapping exactly that last
/// candidate's error.
pub proof fn lemma_direct_exhausted(s: DirectFetch, e: DirectEvent)
    requires
        s.wf(),
        s.accepts(e),
        e is EngineNeedsConn || e is ConnectFailed,
        forall|i: int|
            s.pos <= i < s.nodes@.len() ==> (#[trigger] s.nodes@[i]).node_id == s.self_id,
    ensures
        e is EngineNeedsConn ==> DirectFetch::step_spec(s, e).1 == DirectAction::Finish(
            Err(exhausted_error(s.last_err)),
        ),
        (e matches DirectEvent::ConnectFailed(code) ==> DirectFetch::step_spec(s, e).1
            == DirectAction::Finish(Err(DownloadError::AllPeersFailed { last: code }))),
{
    lemma_first_usable(s.nodes@, s.self_id, s.pos as int);
}

} // verus!
