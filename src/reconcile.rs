use vstd::prelude::*;
use crate::fields::{extract, extract_all, PodField};
use crate::pod::PodSnapshot;
use crate::store::{lookup_spec, published_of, staged_of, update_spec, Contents, MetadataStore};
use crate::transform::{selected, names_view, KubePodMetadata};
use crate::value::pairs_view;

verus! {

/// How long to wait, in milliseconds, after a stream failure before
/// connecting again.
pub const RETRY_TIMEOUT_MS: u64 = 2000;

/// Why the loop stopped for good.
#[derive(Clone, Debug, PartialEq, Eq)]
pub enum BuildError {
    /// The watch client could not be built.
    WatchClientBuild { message: String },
    /// The watch subscription could not be established.
    WatchStreamBuild { message: String },
    /// The variable holding the node name is not set.
    MissingNodeName { env: String },
}

/// Why a running watch stopped; handed to the next connect attempt.
#[derive(Clone, Debug, PartialEq, Eq)]
pub enum RuntimeError {
    /// The stream ended although a watch never ends by itself.
    WatchUnexpectedlyEnded,
    /// The transport failed mid-stream.
    WatchFailed { message: String },
}

/// The state of the reconciliation loop.
#[derive(Clone, Debug, PartialEq, Eq)]
pub enum LoopState {
    Connecting { version: Option<String>, failure: Option<RuntimeError> },
    Streaming { version: Option<String> },
    Backoff { version: Option<String>, failure: RuntimeError, resume_at: u64 },
    Fatal { error: BuildError },
}

/// What the driver of the loop observed.
#[derive(Clone, Debug, PartialEq, Eq)]
pub enum LoopEvent {
    /// The subscription was established.
    Connected,
    /// The subscription could not be established.
    ConnectFailed { message: String },
    /// The stream delivered a resource.
    Item { pod: PodSnapshot },
    /// The stream ended, at time `now` (milliseconds).
    StreamEnded { now: u64 },
    /// The stream failed, at time `now` (milliseconds).
    StreamFailed { message: String, now: u64 },
    /// The clock reads `now` (milliseconds).
    Tick { now: u64 },
}

/// What the driver of the loop is to do next.
#[derive(Clone, Debug, PartialEq, Eq)]
pub enum LoopAction {
    /// Request a subscription, with the resume token and the last failure.
    Connect { version: Option<String>, failure: Option<RuntimeError> },
    /// Pull the next item of the stream.
    Pull,
    /// Wait until the clock reads `until`, then report a tick.
    Sleep { until: u64 },
    /// Stop for good.
    Stop { error: BuildError },
}

fn copy_text(o: &Option<String>) -> (r: Option<String>)
    ensures
        r == *o,
{
    match o {
        Some(s) => Some(s.clone()),
        None => None,
    }
}

impl BuildError {
    pub fn duplicate(&self) -> (r: BuildError)
        ensures
            r == *self,
    {
        match self {
            BuildError::WatchClientBuild { message } => BuildError::WatchClientBuild { message: message.clone() },
            BuildError::WatchStreamBuild { message } => BuildError::WatchStreamBuild { message: message.clone() },
            BuildError::MissingNodeName { env } => BuildError::MissingNodeName { env: env.clone() },
        }
    }
}

impl RuntimeError {
    pub fn duplicate(&self) -> (r: RuntimeError)
        ensures
            r == *self,
    {
        match self {
            RuntimeError::WatchUnexpectedlyEnded => RuntimeError::WatchUnexpectedlyEnded,
            RuntimeError::WatchFailed { message } => RuntimeError::WatchFailed { message: message.clone() },
        }
    }
}

fn copy_failure(o: &Option<RuntimeError>) -> (r: Option<RuntimeError>)
    ensures
        r == *o,
{
    match o {
        Some(f) => Some(f.duplicate()),
        None => None,
    }
}

impl LoopState {
    pub fn duplicate(&self) -> (r: LoopState)
        ensures
            r == *self,
    {
        match self {
            LoopState::Connecting { version, failure } => LoopState::Connecting {
                version: copy_text(version),
                failure: copy_failure(failure),
            },
            LoopState::Streaming { version } => LoopState::Streaming { version: copy_text(version) },
            LoopState::Backoff { version, failure, resume_at } => LoopState::Backoff {
                version: copy_text(version),
                failure: failure.duplicate(),
                resume_at: *resume_at,
            },
            LoopState::Fatal { error } => LoopState::Fatal { error: error.duplicate() },
        }
    }
}

pub open spec fn action_for(s: LoopState) -> LoopAction {
    match s {
        LoopState::Connecting { version, failure } => LoopAction::Connect { version, failure },
        LoopState::Streaming { .. } => LoopAction::Pull,
        LoopState::Backoff { resume_at, .. } => LoopAction::Sleep { until: resume_at },
        LoopState::Fatal { error } => LoopAction::Stop { error },
    }
}

/// The time at which a failure at `now` lets the loop connect again.
pub open spec fn resume_time(now: u64) -> u64 {
    if now + RETRY_TIMEOUT_MS <= u64::MAX {
        (now + RETRY_TIMEOUT_MS) as u64
    } else {
        u64::MAX
    }
}

/// The resume token that a resource yields: its own, when the resource is
/// well formed (it has an identity) and carries one.
pub open spec fn token_of(pod: PodSnapshot) -> Option<String> {
    if pod.uid is Some {
        pod.resource_version
    } else {
        None
    }
}

/// The resume token after a resource: the one it yields, else the previous
/// one.
pub open spec fn next_version(pod: PodSnapshot, version: Option<String>) -> Option<String> {
    match token_of(pod) {
        Some(v) => Some(v),
        None => version,
    }
}

pub open spec fn uid_view(uid: Option<String>) -> Option<Seq<char>> {
    match uid {
        Some(u) => Some(u@),
        None => None,
    }
}

/// The published generation after a resource was written: its identity
/// gets exactly the extracted pairs; without an identity nothing changes.
pub open spec fn written(m: Contents, active: Seq<PodField>, pod: PodSnapshot) -> Contents {
    match pod.uid {
        Some(uid) => update_spec(m, uid@, extract_all(active, pod)),
        None => m,
    }
}

/// Two writes in a row evict nothing either, and leave every identity
/// that neither wrote as it was.
pub proof fn lemma_only_touches_twice(
    a: Contents,
    b: Contents,
    c: Contents,
    first: Option<Seq<char>>,
    second: Option<Seq<char>>,
)
    requires
        only_touches(a, b, first),
        only_touches(b, c, second),
    ensures
        forall|k: Seq<char>| #[trigger] a.contains_key(k) ==> c.contains_key(k),
        forall|k: Seq<char>|
            (first matches Some(u) ==> k != u) && (second matches Some(u) ==> k != u) ==> #[trigger] lookup_spec(c, k)
                == lookup_spec(a, k),
{
    assert forall|k: Seq<char>| #[trigger] a.contains_key(k) implies c.contains_key(k) by {
        assert(b.contains_key(k));
    }
    assert forall|k: Seq<char>|
        (first matches Some(u) ==> k != u) && (second matches Some(u) ==> k != u) implies #[trigger] lookup_spec(c, k)
            == lookup_spec(a, k) by {
        assert(lookup_spec(b, k) == lookup_spec(a, k));
        assert(lookup_spec(c, k) == lookup_spec(b, k));
    }
}

/// The resource that an event writes in a state, if any.
pub open spec fn item_of(s: LoopState, e: LoopEvent) -> Option<PodSnapshot> {
    match (s, e) {
        (LoopState::Streaming { .. }, LoopEvent::Item { pod }) => Some(pod),
        _ => None,
    }
}

/// From `old_m` to `new_m` no identity disappears, and every identity but
/// `uid` keeps what it held (an absent one stays absent).
pub open spec fn only_touches(old_m: Contents, new_m: Contents, uid: Option<Seq<char>>) -> bool {
    &&& forall|k: Seq<char>| #[trigger] old_m.contains_key(k) ==> new_m.contains_key(k)
    &&& forall|k: Seq<char>|
        (uid matches Some(u) ==> k != u) ==> #[trigger] lookup_spec(new_m, k) == lookup_spec(old_m, k)
}

/// Writing a resource keeps every other identity as it was and evicts
/// nothing.
pub proof fn lemma_written_only_touches(m: Contents, active: Seq<PodField>, pod: PodSnapshot)
    ensures
        only_touches(m, written(m, active, pod), uid_view(pod.uid)),
{
}

/// One transition of the loop. An event that does not belong to the state
/// leaves the state as it is; `Fatal` never changes.
pub open spec fn next_state(s: LoopState, e: LoopEvent) -> LoopState {
    match (s, e) {
        (LoopState::Connecting { version, .. }, LoopEvent::Connected) => LoopState::Streaming { version },
        (LoopState::Connecting { .. }, LoopEvent::ConnectFailed { message }) => LoopState::Fatal {
            error: BuildError::WatchStreamBuild { message },
        },
        (LoopState::Streaming { version }, LoopEvent::Item { pod }) => LoopState::Streaming {
            version: next_version(pod, version),
        },
        (LoopState::Streaming { version }, LoopEvent::StreamEnded { now }) => LoopState::Backoff {
            version,
            failure: RuntimeError::WatchUnexpectedlyEnded,
            resume_at: resume_time(now),
        },
        (LoopState::Streaming { version }, LoopEvent::StreamFailed { message, now }) => LoopState::Backoff {
            version,
            failure: RuntimeError::WatchFailed { message },
            resume_at: resume_time(now),
        },
        (LoopState::Backoff { version, failure, resume_at }, LoopEvent::Tick { now }) => if now >= resume_at {
            LoopState::Connecting { version, failure: Some(failure) }
        } else {
            LoopState::Backoff { version, failure, resume_at }
        },
        (s, _) => s,
    }
}

/// The state after a run of events, in order.
pub open spec fn run(s: LoopState, events: Seq<LoopEvent>) -> LoopState
    decreases events.len(),
{
    if events.len() == 0 {
        s
    } else {
        next_state(run(s, events.drop_last()), events.last())
    }
}

/// The state the loop starts in.
pub open spec fn initial_state() -> LoopState {
    LoopState::Connecting { version: None, failure: None }
}

/// The writer side of the cache together with the loop that feeds it.
pub struct MetadataClient {
    fields: Vec<PodField>,
    metadata: MetadataStore,
    state: LoopState,
}

impl MetadataClient {
    pub closed spec fn active(&self) -> Seq<PodField> {
        self.fields@
    }

    pub closed spec fn store(&self) -> MetadataStore {
        self.metadata
    }

    pub closed spec fn loop_state(&self) -> LoopState {
        self.state
    }

    /// Nothing is staged that readers do not see.
    pub open spec fn wf(&self) -> bool {
        staged_of(self.store()) == published_of(self.store())
    }

    /// A client that extracts the fields the configuration selects, writes
    /// into `metadata`, and starts out connecting with no resume token.
    pub fn new(config: &KubePodMetadata, metadata: MetadataStore) -> (r: MetadataClient)
        ensures
            r.active() == selected(names_view(config.fields@)),
            r.store() == metadata,
            r.loop_state() == initial_state(),
            staged_of(metadata) == published_of(metadata) ==> r.wf(),
    {
        MetadataClient {
            fields: config.active_fields(),
            metadata,
            state: LoopState::Connecting { version: None, failure: None },
        }
    }

    /// The current state of the loop.
    pub fn state(&self) -> (r: &LoopState)
        ensures
            *r == self.loop_state(),
    {
        &self.state
    }

    /// What the driver is to do in the current state.
    pub fn pending_action(&self) -> (r: LoopAction)
        ensures
            r == action_for(self.loop_state()),
    {
        match &self.state {
            LoopState::Connecting { version, failure } => LoopAction::Connect {
                version: copy_text(version),
                failure: copy_failure(failure),
            },
            LoopState::Streaming { .. } => LoopAction::Pull,
            LoopState::Backoff { resume_at, .. } => LoopAction::Sleep { until: *resume_at },
            LoopState::Fatal { error } => LoopAction::Stop { error: error.duplicate() },
        }
    }

    /// Writes what the active fields extract from `pod` under its identity,
    /// replacing what was there, and publishes it. A pod without an
    /// identity leaves the store as it is. Returns the resume token the pod
    /// yields: none for a pod without an identity.
    pub fn update(&mut self, pod: &PodSnapshot) -> (r: Option<String>)
        ensures
            r == token_of(*pod),
            old(self).wf() ==> final(self).wf(),
            old(self).wf() ==> published_of(final(self).store()) == written(
                published_of(old(self).store()),
                old(self).active(),
                *pod,
            ),
            old(self).wf() ==> only_touches(
                published_of(old(self).store()),
                published_of(final(self).store()),
                uid_view(pod.uid),
            ),
            final(self).active() == old(self).active(),
            final(self).loop_state() == old(self).loop_state(),
            match pod.uid {
                Some(uid) => {
                    &&& staged_of(final(self).store()) == update_spec(
                        staged_of(old(self).store()),
                        uid@,
                        extract_all(old(self).active(), *pod),
                    )
                    &&& published_of(final(self).store()) == staged_of(final(self).store())
                },
                None => final(self).store() == old(self).store(),
            },
    {
        let ghost before = published_of(self.metadata);
        let r = match &pod.uid {
            Some(uid) => {
                let pairs = extract(&self.fields, pod);
                self.metadata.update(uid, &pairs);
                copy_text(&pod.resource_version)
            },
            None => None,
        };
        proof {
            lemma_written_only_touches(before, self.fields@, *pod);
        }
        r
    }

    /// Takes the event the driver observed, moves the loop to its next
    /// state, and returns what the driver is to do there. A resource that
    /// arrives while streaming is written to the store.
    pub fn step(&mut self, event: LoopEvent) -> (r: LoopAction)
        ensures
            final(self).loop_state() == next_state(old(self).loop_state(), event),
            r == action_for(final(self).loop_state()),
            final(self).active() == old(self).active(),
            old(self).wf() ==> final(self).wf(),
            old(self).wf() ==> published_of(final(self).store()) == match item_of(old(self).loop_state(), event) {
                Some(pod) => written(published_of(old(self).store()), old(self).active(), pod),
                None => published_of(old(self).store()),
            },
            old(self).wf() ==> only_touches(
                published_of(old(self).store()),
                published_of(final(self).store()),
                match item_of(old(self).loop_state(), event) {
                    Some(pod) => uid_view(pod.uid),
                    None => None,
                },
            ),
            match (old(self).loop_state(), event) {
                (LoopState::Streaming { .. }, LoopEvent::Item { pod }) => match pod.uid {
                    Some(uid) => {
                        &&& staged_of(final(self).store()) == update_spec(
                            staged_of(old(self).store()),
                            uid@,
                            extract_all(old(self).active(), pod),
                        )
                        &&& published_of(final(self).store()) == staged_of(final(self).store())
                    },
                    None => final(self).store() == old(self).store(),
                },
                _ => final(self).store() == old(self).store(),
            },
    {
        let next = match (&self.state, event) {
            (LoopState::Connecting { version, .. }, LoopEvent::Connected) => LoopState::Streaming {
                version: copy_text(version),
            },
            (LoopState::Connecting { .. }, LoopEvent::ConnectFailed { message }) => LoopState::Fatal {
                error: BuildError::WatchStreamBuild { message },
            },
            (LoopState::Streaming { version }, LoopEvent::Item { pod }) => {
                let previous = copy_text(version);
                let fresh = self.update(&pod);
                match fresh {
                    Some(v) => LoopState::Streaming { version: Some(v) },
                    None => LoopState::Streaming { version: previous },
                }
            },
            (LoopState::Streaming { version }, LoopEvent::StreamEnded { now }) => LoopState::Backoff {
                version: copy_text(version),
                failure: RuntimeError::WatchUnexpectedlyEnded,
                resume_at: now.saturating_add(RETRY_TIMEOUT_MS),
            },
            (LoopState::Streaming { version }, LoopEvent::StreamFailed { message, now }) => LoopState::Backoff {
                version: copy_text(version),
                failure: RuntimeError::WatchFailed { message },
                resume_at: now.saturating_add(RETRY_TIMEOUT_MS),
            },
            (LoopState::Backoff { version, failure, resume_at }, LoopEvent::Tick { now }) => {
                if now >= *resume_at {
                    LoopState::Connecting { version: copy_text(version), failure: Some(failure.duplicate()) }
                } else {
                    LoopState::Backoff { version: copy_text(version), failure: failure.duplicate(), resume_at: *resume_at }
                }
            },
            (s, _) => s.duplicate(),
        };
        self.state = next;
        self.pending_action()
    }

    /// A read handle on the store, for the enrichment step.
    pub fn reader(&self) -> (r: crate::store::MetadataReader) {
        self.metadata.reader()
    }
}

/// Whether `e` is a clock reading at or after `at`.
pub open spec fn tick_at_or_after(e: LoopEvent, at: u64) -> bool {
    match e {
        LoopEvent::Tick { now } => now >= at,
        _ => false,
    }
}

/// The time of a stream failure event.
pub open spec fn failure_time(e: LoopEvent) -> Option<u64> {
    match e {
        LoopEvent::StreamEnded { now } => Some(now),
        LoopEvent::StreamFailed { now, .. } => Some(now),
        _ => None,
    }
}

proof fn lemma_backoff_holds(s: LoopState, later: Seq<LoopEvent>)
    requires
        s is Backoff,
    ensures
        run(s, later) == s || exists|i: int| 0 <= i < later.len() && tick_at_or_after(#[trigger] later[i], s->Backoff_resume_at),
    decreases later.len(),
{
    if later.len() > 0 {
        lemma_backoff_holds(s, later.drop_last());
        if run(s, later.drop_last()) == s {
            if !tick_at_or_after(later.last(), s->Backoff_resume_at) {
                assert(run(s, later) == s);
            }
        } else {
            let i = choose|i: int| 0 <= i < later.drop_last().len() && tick_at_or_after(#[trigger] later.drop_last()[i], s->Backoff_resume_at);
            assert(later[i] == later.drop_last()[i]);
        }
    }
}

/// After a stream failure at time `t`, whatever events follow, the loop
/// connects again only once the clock has read at least `t` plus the retry
/// delay.
pub proof fn lemma_backoff_timing(version: Option<String>, failure: LoopEvent, later: Seq<LoopEvent>)
    requires
        failure_time(failure) is Some,
        failure_time(failure)->Some_0 + RETRY_TIMEOUT_MS <= u64::MAX,
    ensures
        run(next_state(LoopState::Streaming { version }, failure), later) is Connecting ==> exists|i: int|
            0 <= i < later.len() && tick_at_or_after(
                #[trigger] later[i],
                (failure_time(failure)->Some_0 + RETRY_TIMEOUT_MS) as u64,
            ),
{
    let s = next_state(LoopState::Streaming { version }, failure);
    assert(s is Backoff);
    assert(s->Backoff_resume_at == failure_time(failure)->Some_0 + RETRY_TIMEOUT_MS);
    lemma_backoff_holds(s, later);
}

proof fn lemma_fatal_holds(s: LoopState, later: Seq<LoopEvent>)
    requires
        s is Fatal,
    ensures
        run(s, later) == s,
    decreases later.len(),
{
    if later.len() > 0 {
        lemma_fatal_holds(s, later.drop_last());
    }
}

/// A failure to establish the first subscription stops the loop for good:
/// whatever follows, it never asks to connect again.
pub proof fn lemma_first_connect_failure_is_fatal(message: String, later: Seq<LoopEvent>)
    ensures
        next_state(initial_state(), LoopEvent::ConnectFailed { message }) == (LoopState::Fatal {
            error: BuildError::WatchStreamBuild { message },
        }),
        run(next_state(initial_state(), LoopEvent::ConnectFailed { message }), later)
            == next_state(initial_state(), LoopEvent::ConnectFailed { message }),
        action_for(run(next_state(initial_state(), LoopEvent::ConnectFailed { message }), later))
            == (LoopAction::Stop { error: BuildError::WatchStreamBuild { message } }),
{
    lemma_fatal_holds(next_state(initial_state(), LoopEvent::ConnectFailed { message }), later);
}

/// A stream that fails after a successful connection leads to a wait, and
/// then to a new connect attempt that carries the resume token and the
/// failure.
pub proof fn lemma_stream_failure_reconnects(version: Option<String>, failure: LoopEvent, now: u64)
    requires
        failure_time(failure) is Some,
        now >= resume_time(failure_time(failure)->Some_0),
    ensures
        next_state(LoopState::Connecting { version, failure: None }, LoopEvent::Connected) == (LoopState::Streaming {
            version,
        }),
        next_state(LoopState::Streaming { version }, failure) is Backoff,
        action_for(next_state(LoopState::Streaming { version }, failure)) is Sleep,
        action_for(next_state(next_state(LoopState::Streaming { version }, failure), LoopEvent::Tick { now }))
            == (LoopAction::Connect {
                version,
                failure: Some(next_state(LoopState::Streaming { version }, failure)->Backoff_failure),
            }),
{
}

} // verus!
