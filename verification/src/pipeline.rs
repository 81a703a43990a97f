//! The song-resolution pipeline: a single-consumption, finite stream
//! of resolution results driven as a state machine. The driver
//! performs each requested resolver invocation and feeds the outcome
//! back; the machine decides what to ask for next and yields results
//! strictly in listing order, chunk by chunk. A per-entry failure
//! inside a playlist never aborts the pipeline; a failed flat listing
//! ends it with zero results.

use vstd::prelude::*;

use crate::queue::{QueueEntry, TrackQueue};
use crate::track::{fresh_handle, ResolutionOutcome, ResolveFailure, Track};

verus! {

/// How many playlist members resolve concurrently as one ordering
/// unit, unless the caller configures another bound.
pub const DEFAULT_CHUNK_SIZE: usize = 20;

/// The tracks of the successful outcomes, in order.
pub open spec fn successes(s: Seq<ResolutionOutcome>) -> Seq<Track>
    decreases s.len(),
{
    if s.len() == 0 {
        Seq::empty()
    } else {
        let init = successes(s.drop_last());
        if s.last() is Resolved {
            init.push(s.last().track_of())
        } else {
            init
        }
    }
}

/// How many outcomes failed.
pub open spec fn failure_count(s: Seq<ResolutionOutcome>) -> nat
    decreases s.len(),
{
    if s.len() == 0 {
        0
    } else {
        failure_count(s.drop_last()) + if s.last() is Failed {
            1nat
        } else {
            0nat
        }
    }
}

/// The queue entries that enqueueing these tracks creates: each track
/// paired with a fresh playback handle, in order.
pub open spec fn entries_of(ts: Seq<Track>) -> Seq<QueueEntry> {
    Seq::new(ts.len(), |i: int| QueueEntry { track: ts[i], handle: fresh_handle() })
}

/// Every outcome is either a success or a failure: the enqueued count
/// equals the outcome count minus the failures, whatever the mix.
pub proof fn lemma_success_failure_partition(s: Seq<ResolutionOutcome>)
    ensures
        successes(s).len() + failure_count(s) == s.len(),
    decreases s.len(),
{
    if s.len() > 0 {
        lemma_success_failure_partition(s.drop_last());
    }
}

/// Successes are collected chunk by chunk in chunk order: the
/// successes of a concatenation are the successes of its parts, in
/// order. So the relative order of the successful tracks is that of
/// the listing, however the outcomes are batched.
pub proof fn lemma_successes_append(a: Seq<ResolutionOutcome>, b: Seq<ResolutionOutcome>)
    ensures
        successes(a + b) == successes(a) + successes(b),
    decreases b.len(),
{
    if b.len() == 0 {
        assert(a + b =~= a);
        assert(successes(a) + successes(b) =~= successes(a));
    } else {
        lemma_successes_append(a, b.drop_last());
        assert((a + b).drop_last() =~= a + b.drop_last());
        if b.last() is Resolved {
            assert(successes(a + b) =~= successes(a) + successes(b));
        } else {
            assert(successes(a + b) =~= successes(a) + successes(b));
        }
    }
}

/// How many of the first `i` outcomes resolved.
pub open spec fn resolved_before(s: Seq<ResolutionOutcome>, i: int) -> nat
    decreases i,
{
    if i <= 0 {
        0
    } else {
        resolved_before(s, i - 1) + if s[i - 1] is Resolved {
            1nat
        } else {
            0nat
        }
    }
}

/// Counting resolved outcomes only reads the prefix it counts over.
proof fn lemma_resolved_before_agrees(s: Seq<ResolutionOutcome>, t: Seq<ResolutionOutcome>, k: int)
    requires
        forall|j: int| 0 <= j < k ==> s[j] == t[j],
    ensures
        resolved_before(s, k) == resolved_before(t, k),
    decreases k,
{
    if k > 0 {
        lemma_resolved_before_agrees(s, t, k - 1);
    }
}

/// The collected tracks are one per resolved outcome.
proof fn lemma_successes_len(s: Seq<ResolutionOutcome>)
    ensures
        successes(s).len() == resolved_before(s, s.len() as int),
    decreases s.len(),
{
    if s.len() > 0 {
        lemma_successes_len(s.drop_last());
        lemma_resolved_before_agrees(s, s.drop_last(), s.len() - 1);
    }
}

/// The relative order of successes is that of the outcomes: the i-th
/// outcome, when it resolved, stands among the collected tracks at
/// position `resolved_before(s, i)`, which grows strictly from one
/// resolved outcome to the next.
pub proof fn lemma_success_order_preserved(s: Seq<ResolutionOutcome>, i: int)
    requires
        0 <= i < s.len(),
        s[i] is Resolved,
    ensures
        resolved_before(s, i) < successes(s).len(),
        successes(s)[resolved_before(s, i) as int] == s[i].track_of(),
    decreases s.len(),
{
    let dl = s.drop_last();
    lemma_resolved_before_agrees(s, dl, i);
    if i == s.len() - 1 {
        lemma_successes_len(dl);
    } else {
        lemma_success_order_preserved(dl, i);
    }
}

/// Positions among the collected tracks grow strictly in outcome
/// order: a resolved outcome before `j` stands strictly before the
/// tracks that `j` and anything after it contribute.
pub proof fn lemma_resolved_before_monotone(s: Seq<ResolutionOutcome>, i: int, j: int)
    requires
        0 <= i < j <= s.len(),
        s[i] is Resolved,
    ensures
        resolved_before(s, i) < resolved_before(s, j),
    decreases j,
{
    if j > i + 1 {
        lemma_resolved_before_monotone(s, i, j - 1);
    }
}

/// When every outcome resolves, exactly one track is collected per
/// outcome, and the i-th collected track is the i-th outcome's: the
/// queue gains the playlist's members in listing order, none missing.
pub proof fn lemma_full_resolution_order(s: Seq<ResolutionOutcome>)
    requires
        forall|i: int| 0 <= i < s.len() ==> s[i] is Resolved,
    ensures
        successes(s).len() == s.len(),
        forall|i: int| 0 <= i < s.len() ==> successes(s)[i] == s[i].track_of(),
    decreases s.len(),
{
    if s.len() > 0 {
        lemma_full_resolution_order(s.drop_last());
    }
}

/// Count of tracks added and of failures skipped while consuming one
/// batch of resolution results.
pub struct IngestReport {
    pub added: usize,
    pub failed: usize,
}

/// Consumes a batch of resolution results in order: each successful
/// track is appended to the queue, each failure is skipped and
/// counted. Never fatal to the queue, whatever the outcomes.
pub fn ingest_outcomes(q: &mut TrackQueue, outcomes: Vec<ResolutionOutcome>) -> (r: IngestReport)
    ensures
        final(q)@ == old(q)@ + entries_of(successes(outcomes@)),
        r.added == successes(outcomes@).len(),
        r.failed == failure_count(outcomes@),
{
    let ghost all = outcomes@;
    let ghost q0 = q@;
    let mut rest = outcomes;
    let total = rest.len();
    let mut added: usize = 0;
    let mut failed: usize = 0;
    let ghost mut k: int = 0;
    proof {
        assert(rest@ =~= all.subrange(0, all.len() as int));
        assert(all.subrange(0, 0) =~= Seq::<ResolutionOutcome>::empty());
        assert(q@ =~= q0 + entries_of(successes(all.subrange(0, 0))));
    }
    while rest.len() > 0
        invariant
            0 <= k <= all.len(),
            all.len() == total,
            added <= k,
            failed <= k,
            rest@ == all.subrange(k, all.len() as int),
            q@ == q0 + entries_of(successes(all.subrange(0, k))),
            added == successes(all.subrange(0, k)).len(),
            failed == failure_count(all.subrange(0, k)),
        decreases rest@.len(),
    {
        let outcome = rest.remove(0);
        let ghost pre = all.subrange(0, k);
        let ghost cur = all.subrange(0, k + 1);
        proof {
            assert(cur.drop_last() =~= pre);
            assert(cur.last() == all[k]);
            assert(rest@ =~= all.subrange(k + 1, all.len() as int));
        }
        match outcome {
            ResolutionOutcome::Resolved(track) => {
                q.enqueue(track);
                added += 1;
                proof {
                    assert(q@ =~= q0 + entries_of(successes(cur)));
                }
            },
            ResolutionOutcome::Failed(_) => {
                failed += 1;
                proof {
                    assert(q@ =~= q0 + entries_of(successes(cur)));
                }
            },
        }
        proof {
            k = k + 1;
        }
    }
    proof {
        assert(all.subrange(0, all.len() as int) =~= all);
    }
    IngestReport { added, failed }
}

/// Where the pipeline stands between driver steps.
pub enum PipelinePhase {
    /// One single-track (or search) resolution is outstanding.
    AwaitingSingle,
    /// The flat listing of a playlist is outstanding.
    AwaitingListing,
    /// One chunk of playlist members is being resolved.
    AwaitingChunk,
    /// Nothing more will be yielded.
    Done,
}

/// What the pipeline asks its driver to do next. The driver performs
/// the resolver invocation and feeds the outcome back.
pub enum ResolverAction {
    /// Resolve this URL into one playable track.
    FetchSingle(String),
    /// Resolve the top hit of this search phrase.
    FetchSearch(String),
    /// List the members of this playlist URL, cheaply and in source
    /// order, without resolving them.
    ListPlaylist(String),
    /// Resolve these members, concurrently but yielding in the given
    /// order. The driver may resolve the first member of the first
    /// chunk ahead of the rest for latency; that cannot change the
    /// yielded order.
    ResolveChunk(Vec<String>),
    /// The pipeline has yielded everything it will.
    Finished,
}

/// The resolution pipeline for one request, as a state machine. It
/// holds at most one chunk's worth of outstanding work at a time.
pub struct Pipeline {
    pub phase: PipelinePhase,
    /// The flat listing, once a playlist has been listed.
    pub members: Vec<String>,
    /// Index of the first member not yet handed out for resolution.
    pub next: usize,
    /// Upper bound on concurrently outstanding member resolutions.
    pub chunk_size: usize,
    /// Whether the flat listing step itself failed, ending the
    /// pipeline with zero results.
    pub listing_failed: bool,
}

impl Pipeline {
    /// The machine's invariant between steps.
    pub open spec fn wf(self) -> bool {
        &&& self.chunk_size >= 1
        &&& self.next <= self.members@.len()
        &&& self.phase is AwaitingChunk ==> self.next < self.members@.len()
    }

    /// How many members the chunk starting at `next` holds: the
    /// configured bound, or what remains of the listing.
    pub open spec fn chunk_len(self) -> int {
        if self.members@.len() - self.next < self.chunk_size {
            self.members@.len() - self.next
        } else {
            self.chunk_size as int
        }
    }

    /// The members of the chunk starting at `next`.
    pub open spec fn current_chunk(self) -> Seq<String> {
        self.members@.subrange(self.next as int, self.next + self.chunk_len())
    }

    fn build_chunk(&self) -> (c: Vec<String>)
        requires
            self.wf(),
            self.next < self.members@.len(),
        ensures
            c@ == self.current_chunk(),
    {
        let n = self.members.len();
        let remaining = n - self.next;
        let k = if remaining < self.chunk_size {
            remaining
        } else {
            self.chunk_size
        };
        let mut c: Vec<String> = Vec::new();
        let mut j: usize = 0;
        while j < k
            invariant
                j <= k,
                k == self.chunk_len(),
                n == self.members@.len(),
                self.next + k <= n,
                c@.len() == j,
                forall|m: int| 0 <= m < j ==> c@[m] == self.members@[self.next + m],
            decreases k - j,
        {
            c.push(self.members[self.next + j].clone());
            j += 1;
        }
        proof {
            assert(c@ =~= self.current_chunk());
        }
        c
    }

    /// Starts the pipeline for a classified request: a direct URL or
    /// a search phrase asks for exactly one resolution; a playlist URL
    /// asks for its flat listing first.
    pub fn start(request: crate::request::ResolutionRequest, chunk_size: usize) -> (r: (
        Pipeline,
        ResolverAction,
    ))
        requires
            chunk_size >= 1,
        ensures
            r.0.wf(),
            r.0.chunk_size == chunk_size,
            !r.0.listing_failed,
            request matches crate::request::ResolutionRequest::DirectUrl(u) ==> (r.0.phase
                is AwaitingSingle && r.1 == ResolverAction::FetchSingle(u)),
            request matches crate::request::ResolutionRequest::SearchPhrase(p) ==> (r.0.phase
                is AwaitingSingle && r.1 == ResolverAction::FetchSearch(p)),
            request matches crate::request::ResolutionRequest::PlaylistUrl(u) ==> (r.0.phase
                is AwaitingListing && r.1 == ResolverAction::ListPlaylist(u)),
    {
        let (phase, action) = match request {
            crate::request::ResolutionRequest::DirectUrl(u) => (
                PipelinePhase::AwaitingSingle,
                ResolverAction::FetchSingle(u),
            ),
            crate::request::ResolutionRequest::SearchPhrase(p) => (
                PipelinePhase::AwaitingSingle,
                ResolverAction::FetchSearch(p),
            ),
            crate::request::ResolutionRequest::PlaylistUrl(u) => (
                PipelinePhase::AwaitingListing,
                ResolverAction::ListPlaylist(u),
            ),
        };
        (
            Pipeline {
                phase,
                members: Vec::new(),
                next: 0,
                chunk_size,
                listing_failed: false,
            },
            action,
        )
    }

    /// Feeds back the one outstanding single resolution: the pipeline
    /// yields exactly that result, success or failure, and is done.
    pub fn on_single(&mut self, outcome: ResolutionOutcome) -> (r: (
        Vec<ResolutionOutcome>,
        ResolverAction,
    ))
        requires
            old(self).phase is AwaitingSingle,
        ensures
            r.0@ == seq![outcome],
            r.1 is Finished,
            final(self).phase is Done,
            final(self).listing_failed == old(self).listing_failed,
    {
        self.phase = PipelinePhase::Done;
        let mut yielded: Vec<ResolutionOutcome> = Vec::new();
        yielded.push(outcome);
        proof {
            assert(yielded@ =~= seq![outcome]);
        }
        (yielded, ResolverAction::Finished)
    }

    /// Feeds back the flat listing of a playlist. A failed or
    /// malformed listing ends the pipeline with zero results and marks
    /// it failed; an empty listing ends it quietly; otherwise the
    /// first chunk of members, in source order, is handed out.
    pub fn on_listing(&mut self, listing: Result<Vec<String>, ResolveFailure>) -> (r:
        ResolverAction)
        requires
            old(self).phase is AwaitingListing,
            old(self).wf(),
        ensures
            final(self).wf(),
            final(self).chunk_size == old(self).chunk_size,
            listing is Err ==> final(self).phase is Done && final(self).listing_failed && r
                is Finished,
            listing matches Ok(ms) ==> (final(self).members == ms && final(self).next == 0
                && !final(self).listing_failed && (ms@.len() == 0 ==> final(self).phase is Done && r
                is Finished) && (ms@.len() > 0 ==> final(self).phase is AwaitingChunk && (r
                matches ResolverAction::ResolveChunk(c) && c@ == final(self).current_chunk()))),
    {
        match listing {
            Result::Ok(ms) => {
                self.members = ms;
                self.next = 0;
                self.listing_failed = false;
                if self.members.len() == 0 {
                    self.phase = PipelinePhase::Done;
                    ResolverAction::Finished
                } else {
                    self.phase = PipelinePhase::AwaitingChunk;
                    ResolverAction::ResolveChunk(self.build_chunk())
                }
            },
            Result::Err(_) => {
                self.phase = PipelinePhase::Done;
                self.listing_failed = true;
                ResolverAction::Finished
            },
        }
    }

    /// Feeds back one resolved chunk, one outcome per member in
    /// member order. The pipeline yields the whole chunk before any
    /// member of the next one, then hands out the next chunk, if any.
    pub fn on_chunk(&mut self, results: Vec<ResolutionOutcome>) -> (r: (
        Vec<ResolutionOutcome>,
        ResolverAction,
    ))
        requires
            old(self).phase is AwaitingChunk,
            old(self).wf(),
            results@.len() == old(self).chunk_len(),
        ensures
            final(self).wf(),
            r.0 == results,
            final(self).members == old(self).members,
            final(self).chunk_size == old(self).chunk_size,
            final(self).listing_failed == old(self).listing_failed,
            final(self).next == old(self).next + old(self).chunk_len(),
            final(self).next == final(self).members@.len() ==> (final(self).phase is Done && r.1
                is Finished),
            final(self).next < final(self).members@.len() ==> (final(self).phase is AwaitingChunk
                && (r.1 matches ResolverAction::ResolveChunk(c) && c@
                == final(self).current_chunk())),
    {
        let remaining = self.members.len() - self.next;
        let k = if remaining < self.chunk_size {
            remaining
        } else {
            self.chunk_size
        };
        self.next = self.next + k;
        if self.next == self.members.len() {
            self.phase = PipelinePhase::Done;
            (results, ResolverAction::Finished)
        } else {
            (results, ResolverAction::ResolveChunk(self.build_chunk()))
        }
    }
}

} // verus!
