//! The immutable metadata of a playable track, the mutable playback
//! handle paired with it, and the outcome of resolving one input.

use vstd::prelude::*;

verus! {

/// Metadata of one playable audio item. Immutable once created; the
/// paired [`PlaybackHandle`] is the only mutable aspect.
pub struct Track {
    /// Title, when the resolver reported one.
    pub title: Option<String>,
    /// What the audio engine is handed to play: a URL or an internal
    /// stream reference.
    pub source: String,
    /// Length in whole seconds, when known.
    pub duration_secs: Option<u64>,
    /// Artist or uploader, when known.
    pub artist: Option<String>,
    /// Public page of the track; absent for ephemeral or search-only
    /// sources.
    pub source_url: Option<String>,
}

/// The text shown for a track's title: its own, or a fixed fallback
/// when the resolver reported none.
pub open spec fn title_text(t: Track) -> Seq<char> {
    match t.title {
        Some(s) => s@,
        None => "Name not present"@,
    }
}

impl Track {
    /// The title to display, falling back to a fixed text when the
    /// metadata has none.
    pub fn display_title(&self) -> (r: String)
        ensures
            r@ == title_text(*self),
    {
        match &self.title {
            Some(t) => t.clone(),
            None => String::from_str("Name not present"),
        }
    }
}

/// Runtime control state of one queued track. Created fresh when the
/// track enters the queue.
pub struct PlaybackHandle {
    /// False while the track is paused.
    pub playing: bool,
    /// Playback position in whole seconds; shuffling resets it to zero
    /// for the current track.
    pub elapsed_secs: u64,
    /// How many more times the track repeats before the queue moves on.
    pub remaining_repeats: u64,
}

/// The handle every track starts with: playing from the start, with no
/// repeats scheduled.
pub open spec fn fresh_handle() -> PlaybackHandle {
    PlaybackHandle { playing: true, elapsed_secs: 0, remaining_repeats: 0 }
}

/// Diagnostic carried by a failed resolution; reported to the caller,
/// never surfaced verbatim to end users.
#[derive(Debug)]
pub struct ResolveFailure {
    pub diagnostic: String,
}

/// What resolving one input (or one playlist member) produced.
pub enum ResolutionOutcome {
    /// The resolver returned a playable track.
    Resolved(Track),
    /// The resolver failed for this entry; the pipeline goes on.
    Failed(ResolveFailure),
}

impl ResolutionOutcome {
    /// Whether this outcome carries a playable track.
    pub open spec fn is_resolved(self) -> bool {
        self is Resolved
    }

    /// The track of a successful outcome.
    pub open spec fn track_of(self) -> Track
        recommends
            self is Resolved,
    {
        match self {
            ResolutionOutcome::Resolved(t) => t,
            ResolutionOutcome::Failed(_) => arbitrary(),
        }
    }
}

} // verus!
