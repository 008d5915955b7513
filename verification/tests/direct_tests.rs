use blob_transfer::content::{DownloadError, DownloadStats, NodeAddr, NodeId};
use blob_transfer::direct::{DirectAction, DirectEvent, DirectFetch};

fn nid(n: u64) -> NodeId {
    NodeId { w0: n, w1: 0, w2: 0, w3: 0 }
}

fn addr(n: u64) -> NodeAddr {
    NodeAddr { node_id: nid(n), has_addr_info: true }
}

fn stats(n: u64) -> DownloadStats {
    DownloadStats { bytes_written: n, bytes_read: 2 * n, elapsed_micros: 3 * n }
}

#[test]
fn empty_candidate_list_yields_no_reachable_peer() {
    let mut fetch = DirectFetch::new(nid(0), Vec::new());
    let a = fetch.step(DirectEvent::EngineNeedsConn);
    // no connection is ever attempted: the very first answer is the error
    assert_eq!(a, DirectAction::Finish(Err(DownloadError::NoReachablePeer)));
}

#[test]
fn self_only_candidates_yield_no_reachable_peer() {
    let me = nid(1);
    let nodes = vec![
        NodeAddr { node_id: me, has_addr_info: true },
        NodeAddr { node_id: me, has_addr_info: false },
    ];
    let mut fetch = DirectFetch::new(me, nodes);
    let a = fetch.step(DirectEvent::EngineNeedsConn);
    assert_eq!(a, DirectAction::Finish(Err(DownloadError::NoReachablePeer)));
}

#[test]
fn own_identity_is_skipped_among_candidates() {
    let me = nid(1);
    let nodes = vec![NodeAddr { node_id: me, has_addr_info: true }, addr(2)];
    let mut fetch = DirectFetch::new(me, nodes);
    let a = fetch.step(DirectEvent::EngineNeedsConn);
    assert_eq!(a, DirectAction::Connect(addr(2)));
}

#[test]
fn engine_completing_at_once_needs_no_candidate() {
    let mut fetch = DirectFetch::new(nid(0), Vec::new());
    let a = fetch.step(DirectEvent::EngineComplete(stats(4)));
    assert_eq!(a, DirectAction::Finish(Ok(stats(4))));
}

#[test]
fn failover_skips_failed_candidate_and_never_reaches_later_ones() {
    let me = nid(0);
    let nodes = vec![addr(1), addr(2), addr(3)];
    let mut fetch = DirectFetch::new(me, nodes);
    assert_eq!(fetch.step(DirectEvent::EngineNeedsConn), DirectAction::Connect(addr(1)));
    // candidate 1 fails to connect: move on without consulting the engine
    assert_eq!(fetch.step(DirectEvent::ConnectFailed(7)), DirectAction::Connect(addr(2)));
    assert_eq!(fetch.step(DirectEvent::ConnectOk), DirectAction::Proceed);
    // candidate 2 completes: its stats come back; candidate 3 was never tried
    assert_eq!(
        fetch.step(DirectEvent::ProceedOk(stats(9))),
        DirectAction::Finish(Ok(stats(9)))
    );
}

#[test]
fn all_candidates_failing_yields_all_peers_failed_with_last_error() {
    let me = nid(0);
    let nodes = vec![addr(1), addr(2)];
    let mut fetch = DirectFetch::new(me, nodes);
    assert_eq!(fetch.step(DirectEvent::EngineNeedsConn), DirectAction::Connect(addr(1)));
    assert_eq!(fetch.step(DirectEvent::ConnectFailed(5)), DirectAction::Connect(addr(2)));
    assert_eq!(
        fetch.step(DirectEvent::ConnectFailed(9)),
        DirectAction::Finish(Err(DownloadError::AllPeersFailed { last: 9 }))
    );
}

#[test]
fn failed_resume_reconsults_the_engine_which_may_finish() {
    let me = nid(0);
    let nodes = vec![addr(1), addr(2)];
    let mut fetch = DirectFetch::new(me, nodes);
    assert_eq!(fetch.step(DirectEvent::EngineNeedsConn), DirectAction::Connect(addr(1)));
    assert_eq!(fetch.step(DirectEvent::ConnectOk), DirectAction::Proceed);
    // the resume fails: the engine is stepped again, not the next candidate
    assert_eq!(fetch.step(DirectEvent::ProceedFailed(3)), DirectAction::StepEngine);
    // partial progress made the content locally complete
    assert_eq!(
        fetch.step(DirectEvent::EngineComplete(stats(6))),
        DirectAction::Finish(Ok(stats(6)))
    );
}

#[test]
fn failed_resume_on_last_candidate_yields_its_error() {
    let me = nid(0);
    let nodes = vec![addr(1)];
    let mut fetch = DirectFetch::new(me, nodes);
    assert_eq!(fetch.step(DirectEvent::EngineNeedsConn), DirectAction::Connect(addr(1)));
    assert_eq!(fetch.step(DirectEvent::ConnectOk), DirectAction::Proceed);
    assert_eq!(fetch.step(DirectEvent::ProceedFailed(13)), DirectAction::StepEngine);
    // the engine still needs a connection, but nobody is left
    assert_eq!(
        fetch.step(DirectEvent::EngineNeedsConn),
        DirectAction::Finish(Err(DownloadError::AllPeersFailed { last: 13 }))
    );
}

#[test]
fn engine_failure_is_surfaced_as_store_error() {
    let mut fetch = DirectFetch::new(nid(0), vec![addr(1)]);
    assert_eq!(
        fetch.step(DirectEvent::EngineFailed(21)),
        DirectAction::Finish(Err(DownloadError::StoreError { code: 21 }))
    );
}
