use blob_transfer::content::{
    BlobFormat, ContentHash, DownloadError, HashAndFormat, NodeAddr, NodeId,
};
use blob_transfer::queued::download_queued_plan;

fn target() -> HashAndFormat {
    HashAndFormat {
        hash: ContentHash { w0: 8, w1: 6, w2: 7, w3: 5 },
        format: BlobFormat::HashSeq,
    }
}

fn nid(n: u64) -> NodeId {
    NodeId { w0: n, w1: 0, w2: 0, w3: 0 }
}

#[test]
fn no_candidates_yields_no_reachable_peer() {
    let r = download_queued_plan(target(), &Vec::new(), true);
    assert!(matches!(r, Err(DownloadError::NoReachablePeer)));
}

#[test]
fn bare_identities_without_discovery_yield_no_reachable_peer() {
    let nodes = vec![
        NodeAddr { node_id: nid(1), has_addr_info: false },
        NodeAddr { node_id: nid(2), has_addr_info: false },
    ];
    // nothing to register and nobody to resolve the identities: rejected
    // before anything reaches the downloader
    let r = download_queued_plan(target(), &nodes, false);
    assert!(matches!(r, Err(DownloadError::NoReachablePeer)));
}

#[test]
fn discovery_makes_bare_identities_reachable() {
    let nodes = vec![NodeAddr { node_id: nid(1), has_addr_info: false }];
    let d = download_queued_plan(target(), &nodes, true).unwrap();
    assert_eq!(d.target, target());
    assert_eq!(d.node_ids, vec![nid(1)]);
    assert!(d.to_register.is_empty());
}

#[test]
fn routed_addresses_are_registered_and_all_identities_queued() {
    let a = NodeAddr { node_id: nid(1), has_addr_info: true };
    let b = NodeAddr { node_id: nid(2), has_addr_info: false };
    let c = NodeAddr { node_id: nid(3), has_addr_info: true };
    let nodes = vec![a, b, c];
    let d = download_queued_plan(target(), &nodes, false).unwrap();
    // every identity goes to the queue, in caller order
    assert_eq!(d.node_ids, vec![nid(1), nid(2), nid(3)]);
    // only the addresses carrying routing info are registered, in order
    assert_eq!(d.to_register, vec![a, c]);
}
