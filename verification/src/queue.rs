//! The ordered track queue of one room, with position-addressable
//! operations. Index 0 is "now playing" once playback starts; indices
//! are dense and recomputed on every mutation, so position is the only
//! addressing key. All operations assume the caller already holds the
//! owning room's session lock: concurrency discipline lives one layer
//! up, in the session manager.

use vstd::prelude::*;

use rand::seq::SliceRandom;
use rand::SeedableRng;

use crate::timefmt::{duration_text, format_duration};
use crate::track::{fresh_handle, title_text, PlaybackHandle, Track};

verus! {

/// One slot of the queue: the immutable track and its mutable playback
/// handle.
pub struct QueueEntry {
    pub track: Track,
    pub handle: PlaybackHandle,
}

/// The ordered sequence of queued tracks for one room.
pub struct TrackQueue {
    entries: Vec<QueueEntry>,
}

impl View for TrackQueue {
    type V = Seq<QueueEntry>;

    closed spec fn view(&self) -> Seq<QueueEntry> {
        self.entries@
    }
}

/// Report of a skip request: removing the head is told apart from
/// having nothing to skip.
pub enum SkipOutcome {
    Skipped,
    NothingToSkip,
}

/// Report of a shuffle request: a queue too short to shuffle is told
/// apart from a successful shuffle.
pub enum ShuffleOutcome {
    Shuffled,
    NotShuffled,
}

/// Report of a position-addressed playback change: the position was
/// either served or it does not exist.
pub enum RepeatOutcome {
    Applied,
    NoSuchPosition,
}

/// Report of a pause or resume of the current track.
pub enum PlaybackChange {
    Changed,
    NoTrack,
}

/// One line of a queue listing: the entry's position, its display
/// title, its rendered duration, and its public page when it has one.
/// Position 0 is the one playing.
pub struct QueueEntryInfo {
    pub position: usize,
    pub title: String,
    pub duration_display: String,
    pub source_url: Option<String>,
}

/// The duration line shown for a track: its length rendered as
/// `m:ss` / `h:mm:ss`, or a fixed text when the length is unknown.
pub open spec fn duration_display_of(t: Track) -> Seq<char> {
    match t.duration_secs {
        Some(d) => duration_text(d as int),
        None => "No info"@,
    }
}

/// `e` with its playing flag set to `b`, all else unchanged.
pub open spec fn with_playing(e: QueueEntry, b: bool) -> QueueEntry {
    QueueEntry {
        track: e.track,
        handle: PlaybackHandle {
            playing: b,
            elapsed_secs: e.handle.elapsed_secs,
            remaining_repeats: e.handle.remaining_repeats,
        },
    }
}

/// `e` with its remaining repeat count set to `n`, all else unchanged.
pub open spec fn with_repeats(e: QueueEntry, n: u64) -> QueueEntry {
    QueueEntry {
        track: e.track,
        handle: PlaybackHandle {
            playing: e.handle.playing,
            elapsed_secs: e.handle.elapsed_secs,
            remaining_repeats: n,
        },
    }
}

/// `e` with its playback position rewound to the start, all else
/// unchanged.
pub open spec fn restarted(e: QueueEntry) -> QueueEntry {
    QueueEntry {
        track: e.track,
        handle: PlaybackHandle {
            playing: e.handle.playing,
            elapsed_secs: 0,
            remaining_repeats: e.handle.remaining_repeats,
        },
    }
}

/// Relies on rand's `SliceRandom::shuffle`, driven by a `SmallRng`
/// seeded from entropy: a Fisher-Yates pass of in-place swaps, so
/// whatever order comes out, the slice afterwards holds exactly the
/// entries it held before.
#[verifier::external_body]
fn shuffle_entries(v: &mut Vec<QueueEntry>)
    ensures
        final(v)@.len() == old(v)@.len(),
        final(v)@.to_multiset() == old(v)@.to_multiset(),
{
    let mut rng = rand::rngs::SmallRng::from_entropy();
    v.shuffle(&mut rng);
}

impl TrackQueue {
    /// An empty queue.
    pub fn new() -> (q: TrackQueue)
        ensures
            q@ == Seq::<QueueEntry>::empty(),
    {
        TrackQueue { entries: Vec::new() }
    }

    /// How many tracks are queued, the one playing included.
    pub fn len(&self) -> (n: usize)
        ensures
            n == self@.len(),
    {
        self.entries.len()
    }

    /// Whether nothing is queued.
    pub fn is_empty(&self) -> (r: bool)
        ensures
            r == (self@.len() == 0),
    {
        self.entries.len() == 0
    }

    /// The track at position 0, if any: the one playing once playback
    /// has started.
    pub fn current(&self) -> (r: Option<&Track>)
        ensures
            self@.len() == 0 ==> r is None,
            self@.len() > 0 ==> r == Some(&self@[0].track),
    {
        if self.entries.len() == 0 {
            None
        } else {
            Some(&self.entries[0].track)
        }
    }

    /// Appends a track at the tail with a fresh playback handle and
    /// returns the 0-based position it was assigned.
    pub fn enqueue(&mut self, track: Track) -> (pos: usize)
        ensures
            final(self)@ == old(self)@.push(QueueEntry { track, handle: fresh_handle() }),
            pos == old(self)@.len(),
    {
        let pos = self.entries.len();
        self.entries.push(QueueEntry { track, handle: PlaybackHandle { playing: true, elapsed_secs: 0, remaining_repeats: 0 } });
        pos
    }

    /// Removes and returns the track at `position`, shifting later
    /// entries down by one. An out-of-range position is a reported
    /// "not found", never a failure, and leaves the queue unchanged.
    pub fn dequeue_at(&mut self, position: usize) -> (r: Option<Track>)
        ensures
            position >= old(self)@.len() ==> r is None && final(self)@ == old(self)@,
            position < old(self)@.len() ==> r == Some(old(self)@[position as int].track)
                && final(self)@ == old(self)@.remove(position as int),
    {
        if position < self.entries.len() {
            let entry = self.entries.remove(position);
            Some(entry.track)
        } else {
            None
        }
    }

    /// Stops and removes position 0. Equivalent to removing the head,
    /// but an empty queue is reported through its own path.
    pub fn skip(&mut self) -> (r: SkipOutcome)
        ensures
            old(self)@.len() == 0 ==> r is NothingToSkip && final(self)@ == old(self)@,
            old(self)@.len() > 0 ==> r is Skipped && final(self)@ == old(self)@.remove(0),
    {
        if self.entries.len() == 0 {
            SkipOutcome::NothingToSkip
        } else {
            self.entries.remove(0);
            SkipOutcome::Skipped
        }
    }

    /// Moves the most recently enqueued track to position 1, right
    /// after the current track, which keeps playing undisturbed at
    /// position 0. With one track or none there is nothing to move.
    pub fn promote_latest(&mut self)
        ensures
            old(self)@.len() <= 1 ==> final(self)@ == old(self)@,
            old(self)@.len() > 1 ==> final(self)@ == seq![
                old(self)@[0],
                old(self)@[old(self)@.len() - 1],
            ] + old(self)@.subrange(1, old(self)@.len() - 1),
    {
        let n = self.entries.len();
        if n > 1 {
            let last = self.entries.remove(n - 1);
            self.entries.insert(1, last);
            proof {
                assert(final(self)@ =~= seq![old(self)@[0], old(self)@[old(self)@.len() - 1]]
                    + old(self)@.subrange(1, old(self)@.len() - 1));
            }
        }
    }

    /// Sets how many more times the track at `position` repeats. A
    /// position that does not exist is reported, and nothing changes.
    pub fn set_repeat(&mut self, position: usize, count: u64) -> (r: RepeatOutcome)
        ensures
            position >= old(self)@.len() ==> r is NoSuchPosition && final(self)@ == old(self)@,
            position < old(self)@.len() ==> r is Applied && final(self)@ == old(self)@.update(
                position as int,
                with_repeats(old(self)@[position as int], count),
            ),
    {
        if position < self.entries.len() {
            self.entries[position].handle.remaining_repeats = count;
            proof {
                assert(final(self)@ =~= old(self)@.update(
                    position as int,
                    with_repeats(old(self)@[position as int], count),
                ));
            }
            RepeatOutcome::Applied
        } else {
            RepeatOutcome::NoSuchPosition
        }
    }

    /// Sets the repeat count of the most recently enqueued track: the
    /// one-argument form of the repeat command addresses the tail.
    pub fn repeat_latest(&mut self, count: u64) -> (r: RepeatOutcome)
        ensures
            old(self)@.len() == 0 ==> r is NoSuchPosition && final(self)@ == old(self)@,
            old(self)@.len() > 0 ==> r is Applied && final(self)@ == old(self)@.update(
                old(self)@.len() - 1,
                with_repeats(old(self)@.last(), count),
            ),
    {
        if self.entries.len() == 0 {
            RepeatOutcome::NoSuchPosition
        } else {
            self.set_repeat(self.entries.len() - 1, count)
        }
    }

    /// Pauses the current track, if there is one.
    pub fn pause_current(&mut self) -> (r: PlaybackChange)
        ensures
            old(self)@.len() == 0 ==> r is NoTrack && final(self)@ == old(self)@,
            old(self)@.len() > 0 ==> r is Changed && final(self)@ == old(self)@.update(
                0,
                with_playing(old(self)@[0], false),
            ),
    {
        if self.entries.len() == 0 {
            PlaybackChange::NoTrack
        } else {
            self.entries[0].handle.playing = false;
            proof {
                assert(final(self)@ =~= old(self)@.update(0, with_playing(old(self)@[0], false)));
            }
            PlaybackChange::Changed
        }
    }

    /// Resumes the current track, if there is one.
    pub fn resume_current(&mut self) -> (r: PlaybackChange)
        ensures
            old(self)@.len() == 0 ==> r is NoTrack && final(self)@ == old(self)@,
            old(self)@.len() > 0 ==> r is Changed && final(self)@ == old(self)@.update(
                0,
                with_playing(old(self)@[0], true),
            ),
    {
        if self.entries.len() == 0 {
            PlaybackChange::NoTrack
        } else {
            self.entries[0].handle.playing = true;
            proof {
                assert(final(self)@ =~= old(self)@.update(0, with_playing(old(self)@[0], true)));
            }
            PlaybackChange::Changed
        }
    }

    /// Pauses every queued track at once: used to freeze playback
    /// accounting around a bulk mutation such as a shuffle.
    pub fn pause_all(&mut self)
        ensures
            final(self)@.len() == old(self)@.len(),
            forall|i: int| 0 <= i < old(self)@.len() ==> final(self)@[i] == with_playing(
                old(self)@[i],
                false,
            ),
    {
        self.set_all_playing(false)
    }

    /// Resumes every queued track at once, after a bulk mutation.
    pub fn resume_all(&mut self)
        ensures
            final(self)@.len() == old(self)@.len(),
            forall|i: int| 0 <= i < old(self)@.len() ==> final(self)@[i] == with_playing(
                old(self)@[i],
                true,
            ),
    {
        self.set_all_playing(true)
    }

    fn set_all_playing(&mut self, playing: bool)
        ensures
            final(self)@.len() == old(self)@.len(),
            forall|i: int| 0 <= i < old(self)@.len() ==> final(self)@[i] == with_playing(
                old(self)@[i],
                playing,
            ),
    {
        let ghost q0 = self@;
        let n = self.entries.len();
        let mut i: usize = 0;
        while i < n
            invariant
                n == self.entries.len(),
                q0.len() == n,
                i <= n,
                forall|j: int| 0 <= j < i ==> self.entries@[j] == with_playing(q0[j], playing),
                forall|j: int| i <= j < n ==> self.entries@[j] == q0[j],
            decreases n - i,
        {
            self.entries[i].handle.playing = playing;
            i += 1;
        }
    }

    /// Randomly permutes the whole queue. The current track's playback
    /// position is rewound first, so whichever slot it lands in, it
    /// does not keep stale elapsed time. A queue of one track or none
    /// is reported as not shuffled and left unchanged.
    pub fn shuffle(&mut self) -> (r: ShuffleOutcome)
        ensures
            old(self)@.len() <= 1 ==> r is NotShuffled && final(self)@ == old(self)@,
            old(self)@.len() >= 2 ==> r is Shuffled && final(self)@.len() == old(self)@.len()
                && final(self)@.to_multiset() == old(self)@.update(
                0,
                restarted(old(self)@[0]),
            ).to_multiset(),
    {
        if self.entries.len() <= 1 {
            ShuffleOutcome::NotShuffled
        } else {
            self.entries[0].handle.elapsed_secs = 0;
            proof {
                assert(self.entries@ =~= old(self)@.update(0, restarted(old(self)@[0])));
            }
            shuffle_entries(&mut self.entries);
            ShuffleOutcome::Shuffled
        }
    }

    /// Describes every queued track for display, in queue order: one
    /// line per entry with its position, display title, rendered
    /// duration and page URL.
    pub fn overview(&self) -> (r: Vec<QueueEntryInfo>)
        ensures
            r@.len() == self@.len(),
            forall|i: int| 0 <= i < self@.len() ==> #[trigger] r@[i].position == i
                && r@[i].title@ == title_text(self@[i].track)
                && r@[i].duration_display@ == duration_display_of(self@[i].track)
                && r@[i].source_url == self@[i].track.source_url,
    {
        let mut r: Vec<QueueEntryInfo> = Vec::new();
        let n = self.entries.len();
        let mut i: usize = 0;
        while i < n
            invariant
                i <= n,
                n == self@.len(),
                r@.len() == i,
                forall|j: int| 0 <= j < i ==> #[trigger] r@[j].position == j
                    && r@[j].title@ == title_text(self@[j].track)
                    && r@[j].duration_display@ == duration_display_of(self@[j].track)
                    && r@[j].source_url == self@[j].track.source_url,
            decreases n - i,
        {
            let track = &self.entries[i].track;
            let duration_display = match track.duration_secs {
                Some(d) => format_duration(d),
                None => String::from_str("No info"),
            };
            let source_url = match &track.source_url {
                Some(u) => Some(u.clone()),
                None => None,
            };
            let info = QueueEntryInfo {
                position: i,
                title: track.display_title(),
                duration_display,
                source_url,
            };
            r.push(info);
            i += 1;
        }
        r
    }
}

/// Playing a track next is enqueueing it and promoting the newest
/// entry: on a queue with a current track, the new entry lands at
/// position 1, position 0 keeps the current track untouched, and the
/// rest follow in their old order.
pub proof fn lemma_playnext_inserts_second(q0: Seq<QueueEntry>, e: QueueEntry)
    requires
        q0.len() >= 1,
    ensures
        seq![q0.push(e)[0], q0.push(e)[q0.push(e).len() - 1]] + q0.push(e).subrange(
            1,
            q0.push(e).len() - 1,
        ) == seq![q0[0], e] + q0.subrange(1, q0.len() as int),
{
    assert(seq![q0.push(e)[0], q0.push(e)[q0.push(e).len() - 1]] + q0.push(e).subrange(
        1,
        q0.push(e).len() - 1,
    ) =~= seq![q0[0], e] + q0.subrange(1, q0.len() as int));
}

} // verus!
