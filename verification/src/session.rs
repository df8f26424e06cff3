//! One guild's live voice session: the connection handle borrowed from the
//! transport, the playback queue, and the playback state machine.

use vstd::prelude::*;
use crate::queue::{EntryModel, QueueModel, TrackQueue};
use crate::track::{
    display_title, display_url, fresh_track, outcome_model, MetadataModel, ResolvedMetadata,
    TrackDescriptor,
};
use crate::watchdog::WatchdogState;

verus! {

/// What the session is doing with the head of its queue.
#[derive(Clone, Copy, Debug, PartialEq, Eq, Structural)]
pub enum PlaybackState {
    Playing,
    Paused,
    Idle,
}

/// The one benign playback failure: a control operation was invoked on a
/// session that is idle or already in the requested state.  Surfaced to the
/// caller, never fatal.
#[derive(Clone, Copy, Debug, PartialEq, Eq, Structural)]
pub enum PlaybackError {
    NothingPlaying,
}

/// One line of a queue snapshot: the display title and URL of an entry.
pub struct QueueEntry {
    pub title: String,
    pub url: String,
}

/// A guild's live session.  Created on join, destroyed on leave or by the
/// idle watchdog; owns its queue and its connection handle exclusively.
pub struct VoiceSession {
    guild_id: u64,
    connection: u64,
    queue: TrackQueue,
    playback_state: PlaybackState,
    last_activity: u64,
    watchdog: WatchdogState,
}

/// Mathematical model of a `VoiceSession`.
#[verifier::ext_equal]
pub struct SessionModel {
    pub guild_id: u64,
    pub connection: u64,
    pub queue: QueueModel,
    pub playback_state: PlaybackState,
    pub last_activity: u64,
    pub watchdog: WatchdogState,
}

impl View for VoiceSession {
    type V = SessionModel;

    closed spec fn view(&self) -> SessionModel {
        SessionModel {
            guild_id: self.guild_id,
            connection: self.connection,
            queue: self.queue@,
            playback_state: self.playback_state,
            last_activity: self.last_activity,
            watchdog: self.watchdog,
        }
    }
}

/// The state a session starts in: empty queue, idle playback, its watchdog
/// registered.
pub open spec fn fresh_session(guild_id: u64, connection: u64, now: u64) -> SessionModel {
    SessionModel {
        guild_id,
        connection,
        queue: QueueModel { entries: Seq::<EntryModel>::empty(), next_key: 0 },
        playback_state: PlaybackState::Idle,
        last_activity: now,
        watchdog: WatchdogState::Armed,
    }
}

impl SessionModel {
    /// The queue's keys are well formed, and the playback state agrees with
    /// the queue: the state is idle exactly when nothing is queued.
    pub open spec fn wf(self) -> bool {
        &&& self.queue.wf()
        &&& (self.queue.entries.len() == 0 <==> self.playback_state is Idle)
    }

    /// State after appending a track: the new entry goes to the tail under a
    /// fresh key, an idle session starts playing, and the activity stamp is
    /// refreshed.
    pub open spec fn enqueue_spec(self, source: Seq<char>, now: u64) -> SessionModel {
        SessionModel {
            queue: QueueModel {
                entries: self.queue.entries.push(
                    EntryModel { key: self.queue.next_key, track: fresh_track(source) },
                ),
                next_key: (self.queue.next_key + 1) as u64,
            },
            playback_state: if self.playback_state is Idle {
                PlaybackState::Playing
            } else {
                self.playback_state
            },
            last_activity: now,
            ..self
        }
    }

    /// Pausing succeeds exactly when something is playing.
    pub open spec fn pause_allowed(self) -> bool {
        self.playback_state is Playing
    }

    /// State after a successful pause: only the flag and the activity stamp
    /// change.
    pub open spec fn pause_spec(self, now: u64) -> SessionModel {
        SessionModel { playback_state: PlaybackState::Paused, last_activity: now, ..self }
    }

    /// Resuming succeeds exactly when playback is paused.
    pub open spec fn resume_allowed(self) -> bool {
        self.playback_state is Paused
    }

    /// State after a successful resume: only the flag and the activity stamp
    /// change.
    pub open spec fn resume_spec(self, now: u64) -> SessionModel {
        SessionModel { playback_state: PlaybackState::Playing, last_activity: now, ..self }
    }

    /// State after a stop: the queue is emptied and playback is idle,
    /// whatever held before.
    pub open spec fn stop_spec(self, now: u64) -> SessionModel {
        SessionModel {
            queue: QueueModel {
                entries: Seq::<EntryModel>::empty(),
                next_key: self.queue.next_key,
            },
            playback_state: PlaybackState::Idle,
            last_activity: now,
            ..self
        }
    }

    /// Skipping succeeds exactly when a head exists to remove.
    pub open spec fn skip_allowed(self) -> bool {
        self.queue.entries.len() > 0
    }

    /// State after a successful skip: the head is removed, the next entry is
    /// promoted and plays, or the session falls idle when the queue empties.
    pub open spec fn skip_spec(self, now: u64) -> SessionModel {
        SessionModel {
            queue: QueueModel {
                entries: self.queue.entries.drop_first(),
                next_key: self.queue.next_key,
            },
            playback_state: if self.queue.entries.len() == 1 {
                PlaybackState::Idle
            } else {
                PlaybackState::Playing
            },
            last_activity: now,
            ..self
        }
    }

    /// State after a resolution outcome lands: only the addressed queue
    /// entry changes, and only if it was still unresolved.
    pub open spec fn resolve_spec(self, key: u64, outcome: Option<MetadataModel>) -> SessionModel {
        SessionModel { queue: self.queue.resolve(key, outcome), ..self }
    }

    /// State with the watchdog registered.
    pub open spec fn arm_spec(self) -> SessionModel {
        SessionModel { watchdog: WatchdogState::Armed, ..self }
    }

    /// State with the watchdog cancelled.
    pub open spec fn disarm_spec(self) -> SessionModel {
        SessionModel { watchdog: WatchdogState::Unarmed, ..self }
    }
}

impl VoiceSession {
    /// A new session for `guild_id`, holding the connection handle the
    /// transport returned; its watchdog is registered from the start.
    pub fn new(guild_id: u64, connection: u64, now: u64) -> (s: Self)
        ensures
            s@ == fresh_session(guild_id, connection, now),
            s@.wf(),
    {
        VoiceSession {
            guild_id,
            connection,
            queue: TrackQueue::new(),
            playback_state: PlaybackState::Idle,
            last_activity: now,
            watchdog: WatchdogState::Armed,
        }
    }

    /// Appends a track built from the user's raw source string and returns
    /// its queue position (0 means now playing) and its resolution key.
    /// An entry enqueued on an empty queue becomes the head; on a non-empty
    /// queue it lands at the tail and every existing entry keeps its place.
    pub fn enqueue(&mut self, source: String, now: u64) -> (r: (usize, u64))
        requires
            old(self)@.wf(),
            old(self)@.queue.next_key < u64::MAX,
        ensures
            final(self)@.wf(),
            final(self)@ == old(self)@.enqueue_spec(source@, now),
            r.0 == old(self)@.queue.entries.len(),
            r.1 == old(self)@.queue.next_key,
            old(self)@.queue.entries.len() == 0 ==> r.0 == 0,
            final(self)@.queue.entries.len() == old(self)@.queue.entries.len() + 1,
            final(self)@.queue.entries.last() == (EntryModel {
                key: old(self)@.queue.next_key,
                track: fresh_track(source@),
            }),
            forall|i: int|
                0 <= i < old(self)@.queue.entries.len()
                    ==> final(self)@.queue.entries[i] == old(self)@.queue.entries[i],
    {
        let ghost src: Seq<char> = source@;
        let track = TrackDescriptor::new(source);
        let r = self.queue.enqueue(track);
        match self.playback_state {
            PlaybackState::Idle => {
                self.playback_state = PlaybackState::Playing;
            },
            _ => {},
        }
        self.last_activity = now;
        proof {
            assert(self@ =~= old(self)@.enqueue_spec(src, now));
        }
        r
    }

    /// Pauses the current track.  Fails with `NothingPlaying`, changing
    /// nothing, when the session is idle or already paused.
    pub fn pause(&mut self, now: u64) -> (r: Result<(), PlaybackError>)
        requires
            old(self)@.wf(),
        ensures
            final(self)@.wf(),
            old(self)@.pause_allowed() ==> r == Ok::<(), PlaybackError>(()) && final(self)@ == old(self)@.pause_spec(now),
            !old(self)@.pause_allowed() ==> r == Err::<(), PlaybackError>(
                PlaybackError::NothingPlaying,
            ) && final(self)@ == old(self)@,
    {
        match self.playback_state {
            PlaybackState::Playing => {
                self.playback_state = PlaybackState::Paused;
                self.last_activity = now;
                Ok(())
            },
            _ => Err(PlaybackError::NothingPlaying),
        }
    }

    /// Resumes a paused track.  Fails with `NothingPlaying`, changing
    /// nothing, when the session is idle or already playing.
    pub fn resume(&mut self, now: u64) -> (r: Result<(), PlaybackError>)
        requires
            old(self)@.wf(),
        ensures
            final(self)@.wf(),
            old(self)@.resume_allowed() ==> r == Ok::<(), PlaybackError>(()) && final(self)@ == old(self)@.resume_spec(now),
            !old(self)@.resume_allowed() ==> r == Err::<(), PlaybackError>(
                PlaybackError::NothingPlaying,
            ) && final(self)@ == old(self)@,
    {
        match self.playback_state {
            PlaybackState::Paused => {
                self.playback_state = PlaybackState::Playing;
                self.last_activity = now;
                Ok(())
            },
            _ => Err(PlaybackError::NothingPlaying),
        }
    }

    /// Stops playback: empties the queue and falls idle, whatever the prior
    /// state.  The caller signals the transport to stop the stream.
    pub fn stop(&mut self, now: u64)
        ensures
            final(self)@.wf(),
            final(self)@ == old(self)@.stop_spec(now),
    {
        self.queue.clear();
        self.playback_state = PlaybackState::Idle;
        self.last_activity = now;
        proof {
            assert(self@ =~= old(self)@.stop_spec(now));
        }
    }

    /// Skips the current head and promotes the next entry; a session whose
    /// queue empties falls idle.  Fails with `NothingPlaying`, changing
    /// nothing, when the session is already idle.
    pub fn skip(&mut self, now: u64) -> (r: Result<(), PlaybackError>)
        requires
            old(self)@.wf(),
        ensures
            final(self)@.wf(),
            old(self)@.skip_allowed() ==> r == Ok::<(), PlaybackError>(()) && final(self)@ == old(self)@.skip_spec(now),
            !old(self)@.skip_allowed() ==> r == Err::<(), PlaybackError>(
                PlaybackError::NothingPlaying,
            ) && final(self)@ == old(self)@,
            old(self)@.queue.entries.len() == 1 ==> final(self)@.playback_state is Idle
                && final(self)@.queue.entries.len() == 0,
    {
        if self.queue.is_empty() {
            Err(PlaybackError::NothingPlaying)
        } else {
            self.queue.dequeue();
            if self.queue.is_empty() {
                self.playback_state = PlaybackState::Idle;
            } else {
                self.playback_state = PlaybackState::Playing;
            }
            self.last_activity = now;
            proof {
                assert(self@ =~= old(self)@.skip_spec(now));
            }
            Ok(())
        }
    }

    /// Read-only copy of the first (up to) ten queue entries with their
    /// display title and URL; the session is left untouched.
    pub fn snapshot(&self) -> (entries: Vec<QueueEntry>)
        ensures
            entries@.len() == if self@.queue.entries.len() <= 10 {
                self@.queue.entries.len()
            } else {
                10nat
            },
            forall|i: int|
                0 <= i < entries@.len() ==> #[trigger] entries@[i].title@ == display_title(
                    self@.queue.entries[i].track,
                ) && entries@[i].url@ == display_url(self@.queue.entries[i].track),
    {
        let total = self.queue.len();
        let count = if total <= 10 {
            total
        } else {
            10
        };
        let mut entries: Vec<QueueEntry> = Vec::new();
        let mut i: usize = 0;
        while i < count
            invariant
                count <= self@.queue.entries.len(),
                i <= count,
                entries@.len() == i,
                forall|j: int|
                    0 <= j < i ==> #[trigger] entries@[j].title@ == display_title(
                        self@.queue.entries[j].track,
                    ) && entries@[j].url@ == display_url(self@.queue.entries[j].track),
            decreases count - i,
        {
            let e = self.queue.get(i);
            let title = match &e.track.resolved_title {
                Some(t) => t.clone(),
                None => e.track.source.clone(),
            };
            let url = match &e.track.resolved_url {
                Some(u) => u.clone(),
                None => "https://en.wikipedia.org/wiki/HTTP_404".to_owned(),
            };
            entries.push(QueueEntry { title, url });
            i += 1;
        }
        entries
    }

    /// Writes a resolution outcome into the queue entry enqueued under
    /// `key`; an outcome whose entry has already left the queue, or was
    /// already resolved, is discarded.  Returns whether the entry was found.
    pub fn apply_resolution(&mut self, key: u64, outcome: Option<ResolvedMetadata>) -> (found:
        bool)
        requires
            old(self)@.wf(),
        ensures
            final(self)@.wf(),
            final(self)@ == old(self)@.resolve_spec(key, outcome_model(outcome)),
            found == old(self)@.queue.has_key(key),
    {
        let found = self.queue.apply_resolution(key, outcome);
        proof {
            assert(self@ =~= old(self)@.resolve_spec(key, outcome_model(outcome)));
        }
        found
    }

    /// Registers the session's watchdog.  Arming an armed session is a
    /// silent no-op; the result says whether this call armed it.
    pub fn arm_watchdog(&mut self) -> (newly_armed: bool)
        ensures
            final(self)@ == old(self)@.arm_spec(),
            newly_armed == (old(self)@.watchdog is Unarmed),
    {
        match self.watchdog {
            WatchdogState::Unarmed => {
                self.watchdog = WatchdogState::Armed;
                true
            },
            WatchdogState::Armed => false,
        }
    }

    /// Cancels the session's watchdog; used during teardown.
    pub(crate) fn disarm_watchdog(&mut self)
        ensures
            final(self)@ == old(self)@.disarm_spec(),
    {
        self.watchdog = WatchdogState::Unarmed;
    }

    /// The guild this session belongs to.
    pub fn guild_id(&self) -> (g: u64)
        ensures
            g == self@.guild_id,
    {
        self.guild_id
    }

    /// The transport connection handle this session owns.
    pub fn connection(&self) -> (c: u64)
        ensures
            c == self@.connection,
    {
        self.connection
    }

    /// The current playback state.
    pub fn state(&self) -> (s: PlaybackState)
        ensures
            s == self@.playback_state,
    {
        self.playback_state
    }

    /// When the session last saw a mutating operation.
    pub fn last_activity(&self) -> (t: u64)
        ensures
            t == self@.last_activity,
    {
        self.last_activity
    }

    /// Number of queued entries, the playing head included.
    pub fn queue_len(&self) -> (n: usize)
        ensures
            n == self@.queue.entries.len(),
    {
        self.queue.len()
    }

    /// Whether the queue is empty (equivalently: the session is idle).
    pub fn queue_is_empty(&self) -> (b: bool)
        ensures
            b == (self@.queue.entries.len() == 0),
    {
        self.queue.is_empty()
    }

    /// The key the next enqueued entry will get; keys count up and are never
    /// reused, so enqueueing requires this counter not to be exhausted.
    pub fn next_key(&self) -> (k: u64)
        ensures
            k == self@.queue.next_key,
    {
        self.queue.next_key_value()
    }

    /// Whether the session's watchdog is registered.
    pub fn watchdog_state(&self) -> (w: WatchdogState)
        ensures
            w == self@.watchdog,
    {
        self.watchdog
    }
}

/// Stopping is idempotent: a second stop leaves exactly the state the
/// second call alone would have left, whatever happened in between the two
/// activity stamps.
pub proof fn lemma_stop_idempotent(m: SessionModel, now_first: u64, now_second: u64)
    ensures
        m.stop_spec(now_first).stop_spec(now_second) == m.stop_spec(now_second),
{
    assert(m.stop_spec(now_first).stop_spec(now_second) =~= m.stop_spec(now_second));
}

/// Pause followed by resume restores playback without touching the queue:
/// the session plays again and every queued entry, order included, is as it
/// was before the pause.
pub proof fn lemma_pause_resume_restores(m: SessionModel, now_pause: u64, now_resume: u64)
    requires
        m.pause_allowed(),
    ensures
        m.pause_spec(now_pause).resume_allowed(),
        m.pause_spec(now_pause).resume_spec(now_resume).playback_state is Playing,
        m.pause_spec(now_pause).resume_spec(now_resume).queue == m.queue,
        m.pause_spec(now_pause).resume_spec(now_resume) == (SessionModel {
            last_activity: now_resume,
            ..m
        }),
{
    assert(m.pause_spec(now_pause).resume_spec(now_resume) =~= (SessionModel {
        last_activity: now_resume,
        ..m
    }));
}

} // verus!
