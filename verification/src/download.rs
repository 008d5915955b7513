//! The download orchestrator: one state machine per `download` call that
//! sequences the whole operation — take a temporary pin on the target so it
//! cannot be collected mid-transfer, run the chosen fetch path, emit the
//! terminal progress event (best-effort), persist the requested tag, and
//! only then release the temporary pin.
//!
//! An embedder performs each returned [`DownloadAction`] against the store,
//! the fetch paths and the progress sink, and feeds the outcome back as a
//! [`DownloadEvent`]. Failure at any step still releases the temporary pin
//! before the machine finishes, and the tag step only runs after the fetch
//! succeeded, so no partial tag is left behind.

use vstd::prelude::*;

use crate::content::{
    BlobFormat, DownloadError, ContentHash, DownloadStats, HashAndFormat, NodeAddr, TagName,
};

verus! {

/// Which fetch path a download request asks for.
#[derive(Clone, Copy, Debug, PartialEq, Eq, Structural)]
pub enum DownloadMode {
    /// Hand the fetch to the shared, deduplicating download queue.
    Queued,
    /// Fetch directly, failing over across the candidate list.
    Direct,
}

/// The pinning outcome a download request asks for: a caller-named
/// persistent tag, or a fresh anonymous one.
#[derive(Clone, Copy, Debug, PartialEq, Eq, Structural)]
pub enum SetTagOption {
    Auto,
    Named(TagName),
}

/// One download request as it arrives from a client.
#[derive(Clone, Debug)]
pub struct DownloadRequest {
    pub hash: ContentHash,
    pub format: BlobFormat,
    pub nodes: Vec<NodeAddr>,
    pub tag: SetTagOption,
    pub mode: DownloadMode,
}

impl DownloadRequest {
    /// The content key the request names.
    pub open spec fn key_spec(&self) -> HashAndFormat {
        HashAndFormat { hash: self.hash, format: self.format }
    }

    /// The content key the request names.
    pub fn hash_and_format(&self) -> (r: HashAndFormat)
        ensures
            r == self.key_spec(),
    {
        HashAndFormat { hash: self.hash, format: self.format }
    }
}

/// Where the orchestrator stands: what it is waiting on.
#[derive(Clone, Copy, Debug, PartialEq, Eq)]
pub enum DownloadPhase {
    /// Waiting for the store to hand out the temporary pin.
    AcquiringPin,
    /// Waiting for the fetch path's outcome.
    Fetching,
    /// Waiting for the terminal progress event to be sent (best-effort: the
    /// embedder reports back whether or not the send succeeded).
    SendingDone(DownloadStats),
    /// Waiting for the tag to be persisted.
    ApplyingTag(DownloadStats),
    /// Waiting for the temporary pin to be released; the operation's outcome
    /// is already decided.
    Releasing(Result<(), DownloadError>),
    /// The download is over; no further event is accepted.
    Finished(Result<(), DownloadError>),
}

/// What the outside world reports back after performing an action.
#[derive(Clone, Copy, Debug, PartialEq, Eq)]
pub enum DownloadEvent {
    /// The store handed out the temporary pin.
    PinAcquired,
    /// The fetch path completed with these statistics.
    FetchOk(DownloadStats),
    /// The fetch path failed.
    FetchFailed(DownloadError),
    /// The terminal progress event was handed to the sink — or could not be
    /// delivered; delivery failure is not an error of the download.
    DoneSent,
    /// The tag is durably recorded.
    TagPersisted,
    /// Persisting the tag failed in the store.
    TagFailed(u64),
    /// The temporary pin was released.
    PinReleased,
}

/// What the embedder must do next.
#[derive(Clone, Copy, Debug, PartialEq, Eq)]
pub enum DownloadAction {
    /// Take a temporary pin on this key from the store.
    AcquireTempPin(HashAndFormat),
    /// Run the queued fetch path for this key.
    FetchQueued(HashAndFormat),
    /// Run the direct failover fetch path for this key.
    FetchDirect(HashAndFormat),
    /// Send the terminal progress event carrying the transfer statistics.
    SendAllDone(DownloadStats),
    /// Point this persistent tag name at the key.
    SetNamedTag(TagName, HashAndFormat),
    /// Create a fresh anonymous persistent tag for the key.
    CreateAutoTag(HashAndFormat),
    /// Release the temporary pin taken at the start.
    ReleaseTempPin,
    /// The download is over with this outcome.
    Finish(Result<(), DownloadError>),
}

/// The orchestrator state for one `download` call.
pub struct Download {
    pub req: DownloadRequest,
    pub phase: DownloadPhase,
}

impl Download {
    /// Which events the machine can take in its current phase.
    pub open spec fn accepts(self, e: DownloadEvent) -> bool {
        match self.phase {
            DownloadPhase::AcquiringPin => e is PinAcquired,
            DownloadPhase::Fetching => e is FetchOk || e is FetchFailed,
            DownloadPhase::SendingDone(_) => e is DoneSent,
            DownloadPhase::ApplyingTag(_) => e is TagPersisted || e is TagFailed,
            DownloadPhase::Releasing(_) => e is PinReleased,
            DownloadPhase::Finished(_) => false,
        }
    }

    /// The fetch action the request's mode asks for.
    pub open spec fn fetch_action(self) -> DownloadAction {
        match self.req.mode {
            DownloadMode::Queued => DownloadAction::FetchQueued(self.req.key_spec()),
            DownloadMode::Direct => DownloadAction::FetchDirect(self.req.key_spec()),
        }
    }

    /// The tag action the request's disposition asks for.
    pub open spec fn tag_action(self) -> DownloadAction {
        match self.req.tag {
            SetTagOption::Named(name) => DownloadAction::SetNamedTag(name, self.req.key_spec()),
            SetTagOption::Auto => DownloadAction::CreateAutoTag(self.req.key_spec()),
        }
    }

    /// The whole transition relation of the orchestrator.
    pub open spec fn step_spec(s: Download, e: DownloadEvent) -> (Download, DownloadAction) {
        match e {
            DownloadEvent::PinAcquired => (
                Download { phase: DownloadPhase::Fetching, ..s },
                s.fetch_action(),
            ),
            DownloadEvent::FetchOk(stats) => (
                Download { phase: DownloadPhase::SendingDone(stats), ..s },
                DownloadAction::SendAllDone(stats),
            ),
            DownloadEvent::FetchFailed(err) => (
                Download { phase: DownloadPhase::Releasing(Err(err)), ..s },
                DownloadAction::ReleaseTempPin,
            ),
            DownloadEvent::DoneSent => (
                Download {
                    phase: DownloadPhase::ApplyingTag(s.phase->SendingDone_0),
                    ..s
                },
                s.tag_action(),
            ),
            DownloadEvent::TagPersisted => (
                Download { phase: DownloadPhase::Releasing(Ok(())), ..s },
                DownloadAction::ReleaseTempPin,
            ),
            DownloadEvent::TagFailed(code) => (
                Download {
                    phase: DownloadPhase::Releasing(Err(DownloadError::StoreError { code })),
                    ..s
                },
                DownloadAction::ReleaseTempPin,
            ),
            DownloadEvent::PinReleased => (
                Download { phase: DownloadPhase::Finished(s.phase->Releasing_0), ..s },
                DownloadAction::Finish(s.phase->Releasing_0),
            ),
        }
    }

    /// A fresh orchestrator for `req`, together with the first action: the
    /// temporary pin on the target is taken before any network activity.
    pub fn new(req: DownloadRequest) -> (r: (Download, DownloadAction))
        ensures
            r.0.req == req,
            r.0.phase is AcquiringPin,
            r.1 == DownloadAction::AcquireTempPin(req.key_spec()),
    {
        let key = req.hash_and_format();
        (
            Download { req, phase: DownloadPhase::AcquiringPin },
            DownloadAction::AcquireTempPin(key),
        )
    }

    /// Takes the outcome of the previous action and decides the next one,
    /// exactly as [`Download::step_spec`] says. The request is never
    /// changed; a tag action is only ever emitted after a successful fetch,
    /// and the machine finishes only after the temporary pin was released.
    pub fn step(&mut self, event: DownloadEvent) -> (a: DownloadAction)
        requires
            old(self).accepts(event),
        ensures
            ({
                let (s2, act) = Self::step_spec(*old(self), event);
                *final(self) == s2 && a == act
            }),
            final(self).req == old(self).req,
            (a matches DownloadAction::Finish(res) ==> old(self).phase
                == DownloadPhase::Releasing(res) && final(self).phase == DownloadPhase::Finished(
                res,
            )),
    {
        match event {
            DownloadEvent::PinAcquired => {
                self.phase = DownloadPhase::Fetching;
                let key = self.req.hash_and_format();
                match self.req.mode {
                    DownloadMode::Queued => DownloadAction::FetchQueued(key),
                    DownloadMode::Direct => DownloadAction::FetchDirect(key),
                }
            },
            DownloadEvent::FetchOk(stats) => {
                self.phase = DownloadPhase::SendingDone(stats);
                DownloadAction::SendAllDone(stats)
            },
            DownloadEvent::FetchFailed(err) => {
                self.phase = DownloadPhase::Releasing(Err(err));
                DownloadAction::ReleaseTempPin
            },
            DownloadEvent::DoneSent => {
                let stats = match self.phase {
                    DownloadPhase::SendingDone(stats) => stats,
                    _ => vstd::pervasive::unreached(),
                };
                self.phase = DownloadPhase::ApplyingTag(stats);
                let key = self.req.hash_and_format();
                match self.req.tag {
                    SetTagOption::Named(name) => DownloadAction::SetNamedTag(name, key),
                    SetTagOption::Auto => DownloadAction::CreateAutoTag(key),
                }
            },
            DownloadEvent::TagPersisted => {
                self.phase = DownloadPhase::Releasing(Ok(()));
                DownloadAction::ReleaseTempPin
            },
            DownloadEvent::TagFailed(code) => {
                self.phase = DownloadPhase::Releasing(
                    Err(DownloadError::StoreError { code }),
                );
                DownloadAction::ReleaseTempPin
            },
            DownloadEvent::PinReleased => {
                let res = match self.phase {
                    DownloadPhase::Releasing(res) => res,
                    _ => vstd::pervasive::unreached(),
                };
                self.phase = DownloadPhase::Finished(res);
                DownloadAction::Finish(res)
            },
        }
    }
}

// ---------------------------------------------------------------------------
// Laws of the orchestrator
// ---------------------------------------------------------------------------

/// The actions a run of the orchestrator emits on a sequence of events, per
/// [`Download::step_spec`].
pub open spec fn run_actions(s: Download, events: Seq<DownloadEvent>) -> Seq<DownloadAction>
    decreases events.len(),
{
    if events.len() == 0 {
        Seq::empty()
    } else {
        let first = Download::step_spec(s, events[0]);
        seq![first.1] + run_actions(first.0, events.drop_first())
    }
}

/// Whether the machine accepts every event of a sequence in turn.
pub open spec fn run_accepted(s: Download, events: Seq<DownloadEvent>) -> bool
    decreases events.len(),
{
    events.len() == 0 || (s.accepts(events[0]) && run_accepted(
        Download::step_spec(s, events[0]).0,
        events.drop_first(),
    ))
}

/// End to end, for every request with a named tag disposition: after `new`
/// asked for the temporary pin, when the fetch succeeds, the tag is
/// persisted and the pin released, the run emits exactly the mode's fetch,
/// the terminal progress event with the fetch's statistics, the persistent
/// tag pointing that name at the fetched key, the release of the temporary
/// pin — in this order, the tag strictly before the release — and the
/// successful finish.
pub proof fn lemma_download_named_success_run(
    req: DownloadRequest,
    name: TagName,
    stats: DownloadStats,
)
    requires
        req.tag == SetTagOption::Named(name),
    ensures
        ({
            let s = Download { req, phase: DownloadPhase::AcquiringPin };
            let events = seq![
                DownloadEvent::PinAcquired,
                DownloadEvent::FetchOk(stats),
                DownloadEvent::DoneSent,
                DownloadEvent::TagPersisted,
                DownloadEvent::PinReleased,
            ];
            run_accepted(s, events) && run_actions(s, events) =~= seq![
                s.fetch_action(),
                DownloadAction::SendAllDone(stats),
                DownloadAction::SetNamedTag(name, req.key_spec()),
                DownloadAction::ReleaseTempPin,
                DownloadAction::Finish(Ok(())),
            ]
        }),
{
    reveal_with_fuel(run_actions, 7);
    reveal_with_fuel(run_accepted, 7);
    let s = Download { req, phase: DownloadPhase::AcquiringPin };
    let events = seq![
        DownloadEvent::PinAcquired,
        DownloadEvent::FetchOk(stats),
        DownloadEvent::DoneSent,
        DownloadEvent::TagPersisted,
        DownloadEvent::PinReleased,
    ];
    assert(events.drop_first() =~= seq![
        DownloadEvent::FetchOk(stats),
        DownloadEvent::DoneSent,
        DownloadEvent::TagPersisted,
        DownloadEvent::PinReleased,
    ]);
    assert(events.drop_first().drop_first() =~= seq![
        DownloadEvent::DoneSent,
        DownloadEvent::TagPersisted,
        DownloadEvent::PinReleased,
    ]);
    assert(events.drop_first().drop_first().drop_first() =~= seq![
        DownloadEvent::TagPersisted,
        DownloadEvent::PinReleased,
    ]);
    assert(events.drop_first().drop_first().drop_first().drop_first() =~= seq![
        DownloadEvent::PinReleased,
    ]);
    assert(events.drop_first().drop_first().drop_first().drop_first().drop_first()
        =~= Seq::<DownloadEvent>::empty());
}

/// A failed fetch still releases the temporary pin before the machine
/// finishes with that error, and no tag action is ever emitted on that run.
pub proof fn lemma_download_failure_releases_pin(req: DownloadRequest, err: DownloadError)
    ensures
        ({
            let s = Download { req, phase: DownloadPhase::AcquiringPin };
            let events = seq![
                DownloadEvent::PinAcquired,
                DownloadEvent::FetchFailed(err),
                DownloadEvent::PinReleased,
            ];
            run_accepted(s, events) && run_actions(s, events) =~= seq![
                s.fetch_action(),
                DownloadAction::ReleaseTempPin,
                DownloadAction::Finish(Err(err)),
            ]
        }),
{
    reveal_with_fuel(run_actions, 5);
    reveal_with_fuel(run_accepted, 5);
    let s = Download { req, phase: DownloadPhase::AcquiringPin };
    let events = seq![
        DownloadEvent::PinAcquired,
        DownloadEvent::FetchFailed(err),
        DownloadEvent::PinReleased,
    ];
    assert(events.drop_first() =~= seq![
        DownloadEvent::FetchFailed(err),
        DownloadEvent::PinReleased,
    ]);
    assert(events.drop_first().drop_first() =~= seq![DownloadEvent::PinReleased]);
    assert(events.drop_first().drop_first().drop_first() =~= Seq::<DownloadEvent>::empty());
}

} // verus!
