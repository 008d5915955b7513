//! The queued fetch path: before a request is submitted to the shared,
//! deduplicating download queue, the candidate addresses are split into
//! those to register with the endpoint's address book (the ones carrying
//! routing information) and the plain identity list handed to the queue, and
//! the request is rejected outright when nobody could be reached.

use vstd::prelude::*;

use crate::content::{DownloadError, HashAndFormat, NodeAddr, NodeId};

verus! {

/// Everything the embedder needs to submit one queued download: the target,
/// the addresses to register with the endpoint (tagged there with a fixed
/// provenance label for observability), and the peer identities for the
/// queue request. Identities without routing information are still handed to
/// the queue, since discovery may resolve them.
pub struct QueuedDispatch {
    pub target: HashAndFormat,
    pub node_ids: Vec<NodeId>,
    pub to_register: Vec<NodeAddr>,
}

/// Whether a queued download could reach anyone: at least one peer identity
/// is present, and either some address carries routing information or the
/// endpoint has an active discovery capability.
pub open spec fn can_reach(nodes: Seq<NodeAddr>, has_discovery: bool) -> bool {
    nodes.len() > 0 && (has_discovery || exists|i: int|
        0 <= i < nodes.len() && (#[trigger] nodes[i]).has_addr_info)
}

/// Plans a queued download of `target` from `nodes`. Fails with
/// [`DownloadError::NoReachablePeer`] — before anything is registered or
/// submitted to the downloader — exactly when no candidate could be reached;
/// otherwise returns the full identity list in order and the addresses that
/// carry routing information, in order.
pub fn download_queued_plan(
    target: HashAndFormat,
    nodes: &Vec<NodeAddr>,
    has_discovery: bool,
) -> (r: Result<QueuedDispatch, DownloadError>)
    ensures
        match r {
            Ok(d) => can_reach(nodes@, has_discovery) && d.target == target && d.node_ids@
                == nodes@.map_values(|n: NodeAddr| n.node_id) && d.to_register@ == nodes@.filter(
                |n: NodeAddr| n.has_addr_info,
            ),
            Err(e) => e == DownloadError::NoReachablePeer && !can_reach(nodes@, has_discovery),
        },
{
    let ghost id_of = |n: NodeAddr| n.node_id;
    let ghost with_info = |n: NodeAddr| n.has_addr_info;
    let mut node_ids: Vec<NodeId> = Vec::new();
    let mut to_register: Vec<NodeAddr> = Vec::new();
    let mut any_added = false;
    let mut i: usize = 0;
    #[verifier::loop_isolation(false)]
    while i < nodes.len()
        invariant
            i <= nodes@.len(),
            node_ids@.len() == i,
            forall|j: int| 0 <= j < i ==> node_ids@[j] == (#[trigger] nodes@[j]).node_id,
            to_register@ == nodes@.take(i as int).filter(with_info),
            any_added == exists|j: int| 0 <= j < i && (#[trigger] nodes@[j]).has_addr_info,
        decreases nodes@.len() - i,
    {
        let node = nodes[i];
        node_ids.push(node.node_id);
        if node.has_addr_info {
            to_register.push(node);
            any_added = true;
        }
        proof {
            assert(nodes@.take(i + 1) =~= nodes@.take(i as int).push(nodes@[i as int]));
            nodes@.take(i as int).lemma_filter_push(nodes@[i as int], with_info);
            if node.has_addr_info {
                assert(nodes@[i as int].has_addr_info);
            }
        }
        i += 1;
    }
    proof {
        assert(nodes@.take(nodes@.len() as int) =~= nodes@);
        assert(node_ids@ =~= nodes@.map_values(id_of));
    }
    let can_download = !node_ids.is_empty() && (any_added || has_discovery);
    if !can_download {
        return Err(DownloadError::NoReachablePeer);
    }
    Ok(QueuedDispatch { target, node_ids, to_register })
}

} // verus!
