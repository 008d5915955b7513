use blob_transfer::content::{
    BlobFormat, ContentHash, DownloadError, DownloadStats, HashAndFormat, NodeAddr, NodeId,
    TagName,
};
use blob_transfer::direct::{DirectAction, DirectEvent, DirectFetch};
use blob_transfer::download::{
    Download, DownloadAction, DownloadEvent, DownloadMode, DownloadRequest, SetTagOption,
};

fn request(tag: SetTagOption, mode: DownloadMode) -> DownloadRequest {
    DownloadRequest {
        hash: ContentHash { w0: 1, w1: 2, w2: 3, w3: 4 },
        format: BlobFormat::Raw,
        nodes: vec![NodeAddr { node_id: NodeId { w0: 9, w1: 0, w2: 0, w3: 0 }, has_addr_info: true }],
        tag,
        mode,
    }
}

fn name() -> TagName {
    TagName { w0: 10, w1: 20, w2: 30, w3: 40 }
}

fn stats() -> DownloadStats {
    DownloadStats { bytes_written: 100, bytes_read: 200, elapsed_micros: 300 }
}

#[test]
fn named_tag_success_runs_in_order_and_releases_the_pin_last() {
    let req = request(SetTagOption::Named(name()), DownloadMode::Queued);
    let key = req.hash_and_format();
    let (mut dl, first) = Download::new(req);
    // the pin is taken before any network activity
    assert_eq!(first, DownloadAction::AcquireTempPin(key));
    assert_eq!(dl.step(DownloadEvent::PinAcquired), DownloadAction::FetchQueued(key));
    assert_eq!(
        dl.step(DownloadEvent::FetchOk(stats())),
        DownloadAction::SendAllDone(stats())
    );
    // the tag is persisted only after the fetch succeeded, and points the
    // requested name at the fetched key
    assert_eq!(
        dl.step(DownloadEvent::DoneSent),
        DownloadAction::SetNamedTag(name(), key)
    );
    // the temporary pin goes away only after the tag is durable
    assert_eq!(dl.step(DownloadEvent::TagPersisted), DownloadAction::ReleaseTempPin);
    assert_eq!(dl.step(DownloadEvent::PinReleased), DownloadAction::Finish(Ok(())));
}

#[test]
fn auto_tag_disposition_creates_an_anonymous_tag() {
    let req = request(SetTagOption::Auto, DownloadMode::Queued);
    let key = req.hash_and_format();
    let (mut dl, _) = Download::new(req);
    dl.step(DownloadEvent::PinAcquired);
    dl.step(DownloadEvent::FetchOk(stats()));
    assert_eq!(dl.step(DownloadEvent::DoneSent), DownloadAction::CreateAutoTag(key));
}

#[test]
fn direct_mode_dispatches_to_the_direct_fetch_path() {
    let req = request(SetTagOption::Auto, DownloadMode::Direct);
    let key = req.hash_and_format();
    let (mut dl, _) = Download::new(req);
    assert_eq!(dl.step(DownloadEvent::PinAcquired), DownloadAction::FetchDirect(key));
}

#[test]
fn failed_fetch_aborts_without_a_tag_and_still_releases_the_pin() {
    let req = request(SetTagOption::Named(name()), DownloadMode::Direct);
    let (mut dl, _) = Download::new(req);
    dl.step(DownloadEvent::PinAcquired);
    let err = DownloadError::AllPeersFailed { last: 5 };
    // the error path never emits a tag action: it goes straight to release
    assert_eq!(dl.step(DownloadEvent::FetchFailed(err)), DownloadAction::ReleaseTempPin);
    assert_eq!(dl.step(DownloadEvent::PinReleased), DownloadAction::Finish(Err(err)));
}

#[test]
fn queued_download_with_unreachable_candidates_fails_before_the_downloader() {
    // every candidate is a bare identity and discovery is off: the plan step
    // rejects the request, so the embedder never submits anything to the
    // downloader and reports the failure back to the orchestrator
    let req = DownloadRequest {
        hash: ContentHash { w0: 1, w1: 2, w2: 3, w3: 4 },
        format: BlobFormat::Raw,
        nodes: vec![NodeAddr { node_id: NodeId { w0: 9, w1: 0, w2: 0, w3: 0 }, has_addr_info: false }],
        tag: SetTagOption::Auto,
        mode: DownloadMode::Queued,
    };
    let nodes = req.nodes.clone();
    let key = req.hash_and_format();
    let (mut dl, first) = Download::new(req);
    assert_eq!(first, DownloadAction::AcquireTempPin(key));
    assert_eq!(dl.step(DownloadEvent::PinAcquired), DownloadAction::FetchQueued(key));
    let plan = blob_transfer::queued::download_queued_plan(key, &nodes, false);
    let err = plan.err().unwrap();
    assert_eq!(err, DownloadError::NoReachablePeer);
    assert_eq!(dl.step(DownloadEvent::FetchFailed(err)), DownloadAction::ReleaseTempPin);
    assert_eq!(
        dl.step(DownloadEvent::PinReleased),
        DownloadAction::Finish(Err(DownloadError::NoReachablePeer))
    );
}

#[test]
fn direct_download_end_to_end_persists_the_named_tag() {
    let req = request(SetTagOption::Named(name()), DownloadMode::Direct);
    let nodes = req.nodes.clone();
    let key = req.hash_and_format();
    let (mut dl, first) = Download::new(req);
    assert_eq!(first, DownloadAction::AcquireTempPin(key));
    assert_eq!(dl.step(DownloadEvent::PinAcquired), DownloadAction::FetchDirect(key));
    // the embedder runs the failover machine for the fetch step
    let me = NodeId { w0: 0, w1: 0, w2: 0, w3: 0 };
    let mut fetch = DirectFetch::new(me, nodes.clone());
    assert_eq!(fetch.step(DirectEvent::EngineNeedsConn), DirectAction::Connect(nodes[0]));
    assert_eq!(fetch.step(DirectEvent::ConnectOk), DirectAction::Proceed);
    assert_eq!(
        fetch.step(DirectEvent::ProceedOk(stats())),
        DirectAction::Finish(Ok(stats()))
    );
    // its outcome feeds the orchestrator, which tags and then releases
    assert_eq!(
        dl.step(DownloadEvent::FetchOk(stats())),
        DownloadAction::SendAllDone(stats())
    );
    assert_eq!(
        dl.step(DownloadEvent::DoneSent),
        DownloadAction::SetNamedTag(name(), key)
    );
    assert_eq!(dl.step(DownloadEvent::TagPersisted), DownloadAction::ReleaseTempPin);
    assert_eq!(dl.step(DownloadEvent::PinReleased), DownloadAction::Finish(Ok(())));
}

#[test]
fn failed_tag_persistence_aborts_with_store_error_after_releasing() {
    let req = request(SetTagOption::Named(name()), DownloadMode::Queued);
    let (mut dl, _) = Download::new(req);
    dl.step(DownloadEvent::PinAcquired);
    dl.step(DownloadEvent::FetchOk(stats()));
    dl.step(DownloadEvent::DoneSent);
    assert_eq!(dl.step(DownloadEvent::TagFailed(17)), DownloadAction::ReleaseTempPin);
    assert_eq!(
        dl.step(DownloadEvent::PinReleased),
        DownloadAction::Finish(Err(DownloadError::StoreError { code: 17 }))
    );
}
