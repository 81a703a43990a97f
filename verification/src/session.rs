//! Per-room session life cycle: the registry from room identity to its
//! live voice session, the idempotent join flow, the disconnect that is
//! retried until it succeeds, and the track-end reactor that auto-leaves
//! an emptied room. A room's state machine runs Absent, Joining, Active,
//! Leaving, Absent: Joining lies between [`SessionManager::ensure_action`]
//! and [`SessionManager::complete_join`], Active while the registry holds
//! the session, Leaving while a [`LeaveProcess`] runs. Exclusive access
//! to a room's session is modelled by taking it out of the registry and
//! putting it back: the registry never hands out two owners.

use vstd::prelude::*;

use std::collections::HashMap;

use crate::queue::TrackQueue;

verus! {

broadcast use vstd::std_specs::hash::group_hash_axioms;

/// Seconds between two attempts to disconnect a room.
pub const LEAVE_RETRY_DELAY_SECS: u64 = 5;

/// The live voice connection of one room: where it is connected and
/// the room's track queue. Created on a successful join, destroyed on
/// leave; at most one per room.
pub struct Session {
    /// The room this session belongs to.
    pub room: u64,
    /// The voice channel the session joined. A later request naming
    /// another channel does not move the session.
    pub channel: u64,
    /// The room's ordered track queue.
    pub queue: TrackQueue,
    /// The connection's receive side is muted on join: the bot never
    /// needs incoming audio.
    pub receive_muted: bool,
    /// The track-end reactor is registered as a listener on join.
    pub reactor_registered: bool,
}

impl Session {
    /// The session a successful join creates: an empty queue, the
    /// receive side muted, the track-end reactor registered.
    pub fn make(room: u64, channel: u64) -> (s: Session)
        ensures
            s.room == room,
            s.channel == channel,
            s.queue@.len() == 0,
            s.receive_muted,
            s.reactor_registered,
    {
        Session {
            room,
            channel,
            queue: TrackQueue::new(),
            receive_muted: true,
            reactor_registered: true,
        }
    }
}

/// What a play-like request must do about a room's connection.
pub enum EnsureAction {
    /// A session exists; use it as it is, whatever channel the new
    /// request named.
    UseExisting,
    /// No session exists; attempt to join this channel.
    Join(u64),
}

/// How an attempted join ended.
pub enum JoinOutcome {
    Joined,
    /// The connection could not be established; reported to the
    /// caller, not retried at this layer.
    JoinFailed,
}

/// What the track-end reactor does after a track finished in a room.
pub enum TrackEndAction {
    /// No session, or more tracks remain: nothing to do.
    NoAction,
    /// The room's queue drained: disconnect it.
    Leave,
}

/// The owned table from room identity to its active session. One
/// session per room at most; no state is shared across rooms, so
/// activity in one room cannot stall another.
pub struct SessionManager {
    sessions: HashMap<u64, Session>,
}

impl View for SessionManager {
    type V = Map<u64, Session>;

    closed spec fn view(&self) -> Map<u64, Session> {
        self.sessions@
    }
}

impl SessionManager {
    /// A registry with no active sessions.
    pub fn new() -> (m: SessionManager)
        ensures
            m@ == Map::<u64, Session>::empty(),
    {
        SessionManager { sessions: HashMap::new() }
    }

    /// Whether a room currently has a session.
    pub fn has_session(&self, room: u64) -> (r: bool)
        ensures
            r == self@.contains_key(room),
    {
        self.sessions.contains_key(&room)
    }

    /// Decides how to serve a request that needs a connection in
    /// `room`: joining is idempotent per room, so an existing session
    /// is used unchanged even when the request names another channel;
    /// only an absent room attempts a join.
    pub fn ensure_action(&self, room: u64, channel: u64) -> (a: EnsureAction)
        ensures
            self@.contains_key(room) ==> a is UseExisting,
            !self@.contains_key(room) ==> a == EnsureAction::Join(channel),
    {
        if self.sessions.contains_key(&room) {
            EnsureAction::UseExisting
        } else {
            EnsureAction::Join(channel)
        }
    }

    /// Records how the attempted join of an absent room ended. On
    /// success the room becomes Active with a fresh session: empty
    /// queue, receive muted, reactor registered. On failure the room
    /// is Absent again and the failure is the caller's to report.
    pub fn complete_join(&mut self, room: u64, channel: u64, connected: bool) -> (r: JoinOutcome)
        requires
            !old(self)@.contains_key(room),
        ensures
            !connected ==> r is JoinFailed && final(self)@ == old(self)@,
            connected ==> r is Joined
                && final(self)@ == old(self)@.insert(room, final(self)@[room])
                && final(self)@[room].room == room
                && final(self)@[room].channel == channel
                && final(self)@[room].queue@.len() == 0
                && final(self)@[room].receive_muted
                && final(self)@[room].reactor_registered,
    {
        if connected {
            self.sessions.insert(room, Session::make(room, channel));
            JoinOutcome::Joined
        } else {
            JoinOutcome::JoinFailed
        }
    }

    /// Takes exclusive ownership of a room's session, leaving the
    /// registry without it until it is put back: the per-room lock.
    pub fn take_session(&mut self, room: u64) -> (r: Option<Session>)
        ensures
            !old(self)@.contains_key(room) ==> r is None && final(self)@ == old(self)@,
            old(self)@.contains_key(room) ==> r == Some(old(self)@[room])
                && final(self)@ == old(self)@.remove(room),
    {
        self.sessions.remove(&room)
    }

    /// Returns a session to the registry under its own room, ending
    /// the exclusive access that `take_session` began.
    pub fn put_session(&mut self, session: Session)
        ensures
            final(self)@ == old(self)@.insert(session.room, session),
    {
        let room = session.room;
        self.sessions.insert(room, session);
    }

    /// The track-end reactor, and the check behind leave-if-empty:
    /// after the engine advanced past a finished track, a room whose
    /// queue drained is disconnected; a missing session (already torn
    /// down) or a room with tracks left needs nothing.
    pub fn on_track_end(&self, room: u64) -> (a: TrackEndAction)
        ensures
            a is Leave <==> self@.contains_key(room) && self@[room].queue@.len() == 0,
    {
        match self.sessions.get(&room) {
            Some(s) => {
                if s.queue.is_empty() {
                    TrackEndAction::Leave
                } else {
                    TrackEndAction::NoAction
                }
            },
            None => TrackEndAction::NoAction,
        }
    }
}

/// One step of a disconnect. The driver performs the underlying
/// disconnect call and feeds back whether it worked.
pub enum LeaveStep {
    /// The disconnect failed; report a recoverable warning, wait this
    /// many seconds and try again. Never escalated: disconnection is
    /// expected to eventually succeed.
    RetryAfterDelay(u64),
    /// The room is disconnected.
    Disconnected,
}

/// The Leaving state of one room: the disconnect call retried with a
/// fixed delay until it succeeds, counting attempts and warnings.
pub struct LeaveProcess {
    pub room: u64,
    /// Disconnect attempts made so far.
    pub attempts: u64,
    /// Recoverable warnings reported, one per failed attempt.
    pub warnings: u64,
    /// Whether the disconnect has succeeded.
    pub done: bool,
}

impl LeaveProcess {
    /// Every reachable state reports one warning per failed attempt.
    pub open spec fn wf(self) -> bool {
        self.warnings <= self.attempts
    }

    /// Starts disconnecting a room: no attempt made yet.
    pub fn begin(room: u64) -> (p: LeaveProcess)
        ensures
            p.room == room,
            p.attempts == 0,
            p.warnings == 0,
            !p.done,
            p.wf(),
    {
        LeaveProcess { room, attempts: 0, warnings: 0, done: false }
    }

    /// Feeds back one disconnect attempt's result: success ends the
    /// process with no new warning; failure adds one warning and asks
    /// for a retry after the fixed delay.
    pub fn on_disconnect_result(&mut self, disconnected: bool) -> (s: LeaveStep)
        requires
            !old(self).done,
            old(self).wf(),
            old(self).attempts < u64::MAX,
        ensures
            final(self).wf(),
            final(self).room == old(self).room,
            final(self).attempts == old(self).attempts + 1,
            disconnected ==> final(self).done && s is Disconnected
                && final(self).warnings == old(self).warnings,
            !disconnected ==> !final(self).done && final(self).warnings == old(self).warnings + 1
                && s == LeaveStep::RetryAfterDelay(LEAVE_RETRY_DELAY_SECS),
    {
        self.attempts = self.attempts + 1;
        if disconnected {
            self.done = true;
            LeaveStep::Disconnected
        } else {
            self.warnings = self.warnings + 1;
            LeaveStep::RetryAfterDelay(LEAVE_RETRY_DELAY_SECS)
        }
    }
}

} // verus!
