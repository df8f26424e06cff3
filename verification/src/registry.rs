//! The process-wide session registry: the single source of truth mapping a
//! guild to its live voice session.  At most one session exists per guild at
//! any instant; the keyed insert-if-absent enforces it, and exclusive access
//! to the registry serialises all operations on one guild.

use vstd::prelude::*;
use vstd::map::*;
use crate::session::{
    fresh_session, PlaybackError, QueueEntry, SessionModel, VoiceSession,
};
use crate::track::{display_title, display_url, outcome_model, ResolvedMetadata};
use crate::watchdog::tick_spec;

verus! {

/// Why a join failed.  Both variants are reported to the caller; neither is
/// retried automatically.
#[derive(Clone, Copy, Debug, PartialEq, Eq, Structural)]
pub enum JoinError {
    NoVoiceChannel,
    TransportFailure,
}

/// What the caller's attempt to reach the transport produced, handed in as a
/// plain value: the connection handle on success, or which way it failed.
#[derive(Clone, Copy, Debug, PartialEq, Eq, Structural)]
pub enum ConnectOutcome {
    Connected(u64),
    NoVoiceChannel,
    TransportFailure,
}

/// The registry: an arena of live sessions keyed by guild identifier.
pub struct SessionRegistry {
    sessions: Vec<VoiceSession>,
}

spec fn contains_guild(s: Seq<VoiceSession>, guild: u64) -> bool {
    exists|i: int| 0 <= i < s.len() && (#[trigger] s[i])@.guild_id == guild
}

spec fn guild_index(s: Seq<VoiceSession>, guild: u64) -> int {
    choose|i: int| 0 <= i < s.len() && (#[trigger] s[i])@.guild_id == guild
}

spec fn unique_guilds(s: Seq<VoiceSession>) -> bool {
    forall|i: int, j: int|
        0 <= i < j < s.len() ==> (#[trigger] s[i])@.guild_id != (#[trigger] s[j])@.guild_id
}

spec fn sessions_view(s: Seq<VoiceSession>) -> Map<u64, SessionModel> {
    Map::new(|g: u64| contains_guild(s, g), |g: u64| s[guild_index(s, g)]@)
}

spec fn inv_seq(s: Seq<VoiceSession>) -> bool {
    &&& unique_guilds(s)
    &&& forall|i: int| 0 <= i < s.len() ==> (#[trigger] s[i])@.wf()
}

impl View for SessionRegistry {
    type V = Map<u64, SessionModel>;

    closed spec fn view(&self) -> Map<u64, SessionModel> {
        sessions_view(self.sessions@)
    }
}

impl SessionRegistry {
    /// The sessions the registry holds, in store order.
    pub closed spec fn models(self) -> Seq<SessionModel> {
        self.sessions@.map_values(|s: VoiceSession| s@)
    }

    /// Every held session is well formed, and no two of them serve the same
    /// guild.
    pub open spec fn wf(self) -> bool {
        &&& forall|i: int| 0 <= i < self.models().len() ==> (#[trigger] self.models()[i]).wf()
        &&& forall|i: int, j: int|
            0 <= i < j < self.models().len() ==> (#[trigger] self.models()[i]).guild_id != (
            #[trigger] self.models()[j]).guild_id
    }
}

/// At most one session exists per guild: two sessions of a well-formed
/// registry that serve the same guild are one and the same entry.
pub proof fn lemma_at_most_one_session_per_guild(reg: SessionRegistry, i: int, j: int)
    requires
        reg.wf(),
        0 <= i < reg.models().len(),
        0 <= j < reg.models().len(),
        reg.models()[i].guild_id == reg.models()[j].guild_id,
    ensures
        i == j,
{
}

proof fn lemma_wf_iff(reg: SessionRegistry)
    ensures
        reg.wf() <==> inv_seq(reg.sessions@),
{
    let s = reg.sessions@;
    let m = reg.models();
    assert forall|i: int| 0 <= i < s.len() implies #[trigger] m[i] == s[i]@ by {}
    if inv_seq(s) {
        assert forall|i: int| 0 <= i < m.len() implies (#[trigger] m[i]).wf() by {
            assert(s[i]@.wf());
        }
        assert forall|i: int, j: int| 0 <= i < j < m.len() implies (#[trigger] m[i]).guild_id != (
        #[trigger] m[j]).guild_id by {
            assert(s[i]@.guild_id != s[j]@.guild_id);
        }
        assert(reg.wf());
    }
    if reg.wf() {
        assert forall|i: int, j: int| 0 <= i < j < s.len() implies (#[trigger] s[i])@.guild_id != (
        #[trigger] s[j])@.guild_id by {
            assert(m[i].guild_id != m[j].guild_id);
        }
        assert forall|i: int| 0 <= i < s.len() implies (#[trigger] s[i])@.wf() by {
            assert(m[i].wf());
        }
        assert(inv_seq(s));
    }
}

proof fn lemma_guild_index_unique(s: Seq<VoiceSession>, guild: u64, i: int)
    requires
        unique_guilds(s),
        0 <= i < s.len(),
        s[i]@.guild_id == guild,
    ensures
        contains_guild(s, guild),
        guild_index(s, guild) == i,
        sessions_view(s).dom().contains(guild),
        sessions_view(s)[guild] == s[i]@,
{
    assert(contains_guild(s, guild));
    let j = guild_index(s, guild);
    if i != j {
        assert(false);
    }
}

proof fn lemma_view_absent(s: Seq<VoiceSession>, guild: u64)
    requires
        !contains_guild(s, guild),
    ensures
        !sessions_view(s).dom().contains(guild),
        sessions_view(s).remove(guild) =~= sessions_view(s),
{
}

proof fn lemma_view_push(pre: Seq<VoiceSession>, post: Seq<VoiceSession>, guild: u64)
    requires
        unique_guilds(pre),
        !contains_guild(pre, guild),
        post.len() == pre.len() + 1,
        post[pre.len() as int]@.guild_id == guild,
        forall|j: int| 0 <= j < pre.len() ==> post[j] == pre[j],
    ensures
        unique_guilds(post),
        sessions_view(post) =~= sessions_view(pre).insert(guild, post[pre.len() as int]@),
{
    let n = pre.len() as int;
    assert forall|g: u64| contains_guild(post, g) implies (contains_guild(pre, g) || g
        == guild) by {
        let k = choose|k: int| 0 <= k < post.len() && (#[trigger] post[k])@.guild_id == g;
        if k < n {
            assert(pre[k]@.guild_id == g);
        }
    }
    assert forall|g: u64|
        sessions_view(post).dom().contains(g) implies sessions_view(pre).insert(
        guild,
        post[n]@,
    ).dom().contains(g) by {}
    assert forall|g: u64|
        sessions_view(pre).insert(guild, post[n]@).dom().contains(
            g,
        ) implies sessions_view(post).dom().contains(g) by {
        if g == guild {
            assert(post[n]@.guild_id == g);
            assert(contains_guild(post, g));
        } else {
            let k = guild_index(pre, g);
            assert(pre[k]@.guild_id == g);
            assert(post[k]@.guild_id == g);
            assert(contains_guild(post, g));
        }
    }
    assert forall|g: u64|
        sessions_view(post).dom().contains(g) implies sessions_view(post)[g] == sessions_view(
        pre,
    ).insert(guild, post[n]@)[g] by {
        if g == guild {
            lemma_guild_index_unique(post, g, n);
        } else {
            let k = guild_index(pre, g);
            assert(pre[k]@.guild_id == g);
            assert(post[k]@.guild_id == g);
            lemma_guild_index_unique(post, g, k);
            lemma_guild_index_unique(pre, g, k);
        }
    }
    assert(sessions_view(post) =~= sessions_view(pre).insert(guild, post[n]@));
}

proof fn lemma_view_update(pre: Seq<VoiceSession>, post: Seq<VoiceSession>, i: int, guild: u64)
    requires
        unique_guilds(pre),
        0 <= i < pre.len(),
        pre[i]@.guild_id == guild,
        post.len() == pre.len(),
        post[i]@.guild_id == guild,
        forall|j: int| 0 <= j < pre.len() && j != i ==> post[j] == pre[j],
    ensures
        unique_guilds(post),
        sessions_view(post) =~= sessions_view(pre).insert(guild, post[i]@),
{
    assert forall|a: int, b: int| 0 <= a < b < post.len() implies (#[trigger] post[a])@.guild_id
        != (#[trigger] post[b])@.guild_id by {
        assert(pre[a]@.guild_id != pre[b]@.guild_id);
    }
    assert forall|g: u64| contains_guild(post, g) implies contains_guild(pre, g) by {
        let k = choose|k: int| 0 <= k < post.len() && (#[trigger] post[k])@.guild_id == g;
        if k == i {
            assert(pre[i]@.guild_id == g);
        } else {
            assert(pre[k]@.guild_id == g);
        }
    }
    assert forall|g: u64| contains_guild(pre, g) implies contains_guild(post, g) by {
        let k = choose|k: int| 0 <= k < pre.len() && (#[trigger] pre[k])@.guild_id == g;
        if k == i {
            assert(post[i]@.guild_id == g);
        } else {
            assert(post[k]@.guild_id == g);
        }
    }
    assert forall|g: u64|
        sessions_view(post).dom().contains(g) implies sessions_view(post)[g] == sessions_view(
        pre,
    ).insert(guild, post[i]@)[g] by {
        if g == guild {
            lemma_guild_index_unique(post, g, i);
        } else {
            let k = choose|k: int| 0 <= k < pre.len() && (#[trigger] pre[k])@.guild_id == g;
            assert(k != i);
            assert(post[k]@.guild_id == g);
            lemma_guild_index_unique(post, g, k);
            lemma_guild_index_unique(pre, g, k);
        }
    }
    assert(sessions_view(post) =~= sessions_view(pre).insert(guild, post[i]@));
}

proof fn lemma_view_remove(pre: Seq<VoiceSession>, post: Seq<VoiceSession>, i: int, guild: u64)
    requires
        unique_guilds(pre),
        0 <= i < pre.len(),
        pre[i]@.guild_id == guild,
        post == pre.remove(i),
    ensures
        unique_guilds(post),
        sessions_view(post) =~= sessions_view(pre).remove(guild),
        forall|j: int| 0 <= j < i ==> post[j] == pre[j],
        forall|j: int| i <= j < post.len() ==> post[j] == pre[j + 1],
{
    assert forall|a: int, b: int| 0 <= a < b < post.len() implies (#[trigger] post[a])@.guild_id
        != (#[trigger] post[b])@.guild_id by {
        let pa: int = if a < i {
            a
        } else {
            a + 1
        };
        let pb: int = if b < i {
            b
        } else {
            b + 1
        };
        assert(post[a] == pre[pa]);
        assert(post[b] == pre[pb]);
        assert(pre[pa]@.guild_id != pre[pb]@.guild_id);
    }
    assert_maps_equal!(sessions_view(post), sessions_view(pre).remove(guild), g => {
        if contains_guild(post, g) {
            let k = choose|k: int| 0 <= k < post.len() && (#[trigger] post[k])@.guild_id == g;
            let pk: int = if k < i {
                k
            } else {
                k + 1
            };
            assert(post[k] == pre[pk]);
            assert(pre[pk]@.guild_id == g);
            assert(contains_guild(pre, g));
            if g == guild {
                lemma_guild_index_unique(pre, guild, i);
                assert(false);
            }
            lemma_guild_index_unique(post, g, k);
            lemma_guild_index_unique(pre, g, pk);
        }
        if g != guild && contains_guild(pre, g) {
            let k = guild_index(pre, g);
            assert(pre[k]@.guild_id == g);
            lemma_guild_index_unique(pre, g, k);
            assert(k != i);
            let nk: int = if k < i {
                k
            } else {
                k - 1
            };
            assert(post[nk] == pre[k]);
            lemma_guild_index_unique(post, g, nk);
        }
    });
}

impl SessionRegistry {
    /// An empty registry: no guild has a session.
    pub fn new() -> (r: Self)
        ensures
            r.wf(),
            r@ == Map::<u64, SessionModel>::empty(),
    {
        let r = SessionRegistry { sessions: Vec::new() };
        proof {
            assert(r@ =~= Map::<u64, SessionModel>::empty());
        }
        r
    }

    fn find(&self, guild: u64) -> (r: Option<usize>)
        ensures
            match r {
                Some(i) => i < self.sessions@.len() && self.sessions@[i as int]@.guild_id
                    == guild,
                None => !contains_guild(self.sessions@, guild),
            },
    {
        let n = self.sessions.len();
        let mut idx: usize = 0;
        while idx < n
            invariant
                n == self.sessions@.len(),
                idx <= n,
                forall|j: int| 0 <= j < idx ==> (#[trigger] self.sessions@[j])@.guild_id != guild,
            decreases n - idx,
        {
            if self.sessions[idx].guild_id() == guild {
                return Some(idx);
            }
            idx += 1;
        }
        None
    }

    /// Returns the existing session's handle for `guild`, or installs a new
    /// session from a successful connect outcome.  Exactly one session per
    /// guild exists after success; a failed outcome installs nothing.  The
    /// result says whether a session was created.
    pub fn get_or_create(&mut self, guild: u64, connect: ConnectOutcome, now: u64) -> (r: Result<
        bool,
        JoinError,
    >)
        requires
            old(self).wf(),
        ensures
            final(self).wf(),
            old(self)@.dom().contains(guild) ==> r == Ok::<bool, JoinError>(false) && final(self)@
                == old(self)@,
            !old(self)@.dom().contains(guild) ==> match connect {
                ConnectOutcome::Connected(handle) => r == Ok::<bool, JoinError>(true)
                    && final(self)@ == old(self)@.insert(guild, fresh_session(guild, handle, now)),
                ConnectOutcome::NoVoiceChannel => r == Err::<bool, JoinError>(
                    JoinError::NoVoiceChannel,
                ) && final(self)@ == old(self)@,
                ConnectOutcome::TransportFailure => r == Err::<bool, JoinError>(
                    JoinError::TransportFailure,
                ) && final(self)@ == old(self)@,
            },
    {
        proof {
            lemma_wf_iff(*old(self));
        }
        match self.find(guild) {
            Some(i) => {
                proof {
                    lemma_guild_index_unique(self.sessions@, guild, i as int);
                }
                Ok(false)
            },
            None => {
                proof {
                    lemma_view_absent(self.sessions@, guild);
                }
                match connect {
                    ConnectOutcome::Connected(handle) => {
                        let s = VoiceSession::new(guild, handle, now);
                        self.sessions.push(s);
                        proof {
                            lemma_view_push(old(self).sessions@, self.sessions@, guild);
                            assert forall|j: int|
                                0 <= j < self.sessions@.len() implies (
                            #[trigger] self.sessions@[j])@.wf() by {
                                if j < old(self).sessions@.len() {
                                    assert(self.sessions@[j] == old(self).sessions@[j]);
                                }
                            }
                            lemma_wf_iff(*self);
                        }
                        Ok(true)
                    },
                    ConnectOutcome::NoVoiceChannel => Err(JoinError::NoVoiceChannel),
                    ConnectOutcome::TransportFailure => Err(JoinError::TransportFailure),
                }
            },
        }
    }

    /// Non-creating lookup of a guild's session.
    pub fn get(&self, guild: u64) -> (r: Option<&VoiceSession>)
        requires
            self.wf(),
        ensures
            r is Some <==> self@.dom().contains(guild),
            r matches Some(s) ==> s@ == self@[guild],
    {
        proof {
            lemma_wf_iff(*self);
        }
        match self.find(guild) {
            Some(i) => {
                proof {
                    lemma_guild_index_unique(self.sessions@, guild, i as int);
                }
                Some(&self.sessions[i])
            },
            None => {
                proof {
                    lemma_view_absent(self.sessions@, guild);
                }
                None
            },
        }
    }

    /// Tears a guild's session down and returns it, its watchdog cancelled,
    /// so the caller can release the transport connection.  Removing an
    /// absent guild is a no-op, not an error.
    pub fn remove(&mut self, guild: u64) -> (r: Option<VoiceSession>)
        requires
            old(self).wf(),
        ensures
            final(self).wf(),
            final(self)@ == old(self)@.remove(guild),
            !final(self)@.dom().contains(guild),
            r is Some <==> old(self)@.dom().contains(guild),
            r matches Some(s) ==> s@ == old(self)@[guild].disarm_spec(),
    {
        proof {
            lemma_wf_iff(*old(self));
        }
        match self.find(guild) {
            Some(i) => {
                proof {
                    lemma_guild_index_unique(old(self).sessions@, guild, i as int);
                }
                let mut s = self.sessions.remove(i);
                s.disarm_watchdog();
                proof {
                    lemma_view_remove(old(self).sessions@, self.sessions@, i as int, guild);
                    lemma_view_absent(self.sessions@, guild);
                    assert forall|j: int|
                        0 <= j < self.sessions@.len() implies (#[trigger] self.sessions@[j])@.wf() by {
                        if j < i as int {
                            assert(self.sessions@[j] == old(self).sessions@[j]);
                        } else {
                            assert(self.sessions@[j] == old(self).sessions@[j + 1]);
                        }
                    }
                    lemma_wf_iff(*self);
                }
                Some(s)
            },
            None => {
                proof {
                    lemma_view_absent(self.sessions@, guild);
                }
                None
            },
        }
    }

    /// Appends a track to a guild's queue; `None` when the guild has no
    /// session.  On success the result carries the queue position (0 means
    /// now playing) and the entry's resolution key.
    pub fn enqueue(&mut self, guild: u64, source: String, now: u64) -> (r: Option<(usize, u64)>)
        requires
            old(self).wf(),
            old(self)@.dom().contains(guild) ==> old(self)@[guild].queue.next_key < u64::MAX,
        ensures
            final(self).wf(),
            r is Some <==> old(self)@.dom().contains(guild),
            !old(self)@.dom().contains(guild) ==> final(self)@ == old(self)@,
            old(self)@.dom().contains(guild) ==> final(self)@ == old(self)@.insert(
                guild,
                old(self)@[guild].enqueue_spec(source@, now),
            ) && r == Some((
                old(self)@[guild].queue.entries.len() as usize,
                old(self)@[guild].queue.next_key,
            )),
    {
        let ghost src: Seq<char> = source@;
        proof {
            lemma_wf_iff(*old(self));
        }
        match self.find(guild) {
            Some(i) => {
                proof {
                    lemma_guild_index_unique(old(self).sessions@, guild, i as int);
                }
                let mut s = self.sessions.remove(i);
                let out = s.enqueue(source, now);
                self.sessions.insert(i, s);
                proof {
                    self.lemma_after_update(*old(self), i as int, guild);
                }
                Some(out)
            },
            None => {
                proof {
                    lemma_view_absent(self.sessions@, guild);
                }
                None
            },
        }
    }

    /// Pauses a guild's current track; `None` when the guild has no
    /// session.  A session that is not playing refuses with
    /// `NothingPlaying` and stays as it is.
    pub fn pause(&mut self, guild: u64, now: u64) -> (r: Option<Result<(), PlaybackError>>)
        requires
            old(self).wf(),
        ensures
            final(self).wf(),
            r is Some <==> old(self)@.dom().contains(guild),
            !old(self)@.dom().contains(guild) ==> final(self)@ == old(self)@,
            old(self)@.dom().contains(guild) && old(self)@[guild].pause_allowed() ==> r == Some(
                Ok::<(), PlaybackError>(()),
            ) && final(self)@ == old(self)@.insert(guild, old(self)@[guild].pause_spec(now)),
            old(self)@.dom().contains(guild) && !old(self)@[guild].pause_allowed() ==> r == Some(
                Err::<(), PlaybackError>(PlaybackError::NothingPlaying),
            ) && final(self)@ == old(self)@,
    {
        proof {
            lemma_wf_iff(*old(self));
        }
        match self.find(guild) {
            Some(i) => {
                proof {
                    lemma_guild_index_unique(old(self).sessions@, guild, i as int);
                }
                let mut s = self.sessions.remove(i);
                let out = s.pause(now);
                self.sessions.insert(i, s);
                proof {
                    self.lemma_after_update(*old(self), i as int, guild);
                    lemma_reinsert_same(old(self)@, guild);
                }
                Some(out)
            },
            None => {
                proof {
                    lemma_view_absent(self.sessions@, guild);
                }
                None
            },
        }
    }

    /// Resumes a guild's paused track; `None` when the guild has no
    /// session.  A session that is not paused refuses with `NothingPlaying`
    /// and stays as it is.
    pub fn resume(&mut self, guild: u64, now: u64) -> (r: Option<Result<(), PlaybackError>>)
        requires
            old(self).wf(),
        ensures
            final(self).wf(),
            r is Some <==> old(self)@.dom().contains(guild),
            !old(self)@.dom().contains(guild) ==> final(self)@ == old(self)@,
            old(self)@.dom().contains(guild) && old(self)@[guild].resume_allowed() ==> r == Some(
                Ok::<(), PlaybackError>(()),
            ) && final(self)@ == old(self)@.insert(guild, old(self)@[guild].resume_spec(now)),
            old(self)@.dom().contains(guild) && !old(self)@[guild].resume_allowed() ==> r == Some(
                Err::<(), PlaybackError>(PlaybackError::NothingPlaying),
            ) && final(self)@ == old(self)@,
    {
        proof {
            lemma_wf_iff(*old(self));
        }
        match self.find(guild) {
            Some(i) => {
                proof {
                    lemma_guild_index_unique(old(self).sessions@, guild, i as int);
                }
                let mut s = self.sessions.remove(i);
                let out = s.resume(now);
                self.sessions.insert(i, s);
                proof {
                    self.lemma_after_update(*old(self), i as int, guild);
                    lemma_reinsert_same(old(self)@, guild);
                }
                Some(out)
            },
            None => {
                proof {
                    lemma_view_absent(self.sessions@, guild);
                }
                None
            },
        }
    }

    /// Stops a guild's playback: empties the queue and falls idle, whatever
    /// the prior state.  Returns whether a session existed; stopping a
    /// guild without one changes nothing.
    pub fn stop(&mut self, guild: u64, now: u64) -> (stopped: bool)
        requires
            old(self).wf(),
        ensures
            final(self).wf(),
            stopped == old(self)@.dom().contains(guild),
            !old(self)@.dom().contains(guild) ==> final(self)@ == old(self)@,
            old(self)@.dom().contains(guild) ==> final(self)@ == old(self)@.insert(
                guild,
                old(self)@[guild].stop_spec(now),
            ),
    {
        proof {
            lemma_wf_iff(*old(self));
        }
        match self.find(guild) {
            Some(i) => {
                proof {
                    lemma_guild_index_unique(old(self).sessions@, guild, i as int);
                }
                let mut s = self.sessions.remove(i);
                s.stop(now);
                self.sessions.insert(i, s);
                proof {
                    self.lemma_after_update(*old(self), i as int, guild);
                }
                true
            },
            None => {
                proof {
                    lemma_view_absent(self.sessions@, guild);
                }
                false
            },
        }
    }

    /// Skips a guild's current track; `None` when the guild has no
    /// session.  An idle session refuses with `NothingPlaying` and stays as
    /// it is.
    pub fn skip(&mut self, guild: u64, now: u64) -> (r: Option<Result<(), PlaybackError>>)
        requires
            old(self).wf(),
        ensures
            final(self).wf(),
            r is Some <==> old(self)@.dom().contains(guild),
            !old(self)@.dom().contains(guild) ==> final(self)@ == old(self)@,
            old(self)@.dom().contains(guild) && old(self)@[guild].skip_allowed() ==> r == Some(
                Ok::<(), PlaybackError>(()),
            ) && final(self)@ == old(self)@.insert(guild, old(self)@[guild].skip_spec(now)),
            old(self)@.dom().contains(guild) && !old(self)@[guild].skip_allowed() ==> r == Some(
                Err::<(), PlaybackError>(PlaybackError::NothingPlaying),
            ) && final(self)@ == old(self)@,
    {
        proof {
            lemma_wf_iff(*old(self));
        }
        match self.find(guild) {
            Some(i) => {
                proof {
                    lemma_guild_index_unique(old(self).sessions@, guild, i as int);
                }
                let mut s = self.sessions.remove(i);
                let out = s.skip(now);
                self.sessions.insert(i, s);
                proof {
                    self.lemma_after_update(*old(self), i as int, guild);
                    lemma_reinsert_same(old(self)@, guild);
                }
                Some(out)
            },
            None => {
                proof {
                    lemma_view_absent(self.sessions@, guild);
                }
                None
            },
        }
    }

    /// Read-only copy of the first (up to) ten entries of a guild's queue,
    /// with display titles and URLs; `None` when the guild has no session.
    pub fn snapshot(&self, guild: u64) -> (r: Option<Vec<QueueEntry>>)
        requires
            self.wf(),
        ensures
            r is Some <==> self@.dom().contains(guild),
            r matches Some(entries) ==> entries@.len() == if self@[guild].queue.entries.len()
                <= 10 {
                self@[guild].queue.entries.len()
            } else {
                10nat
            },
            r matches Some(entries) ==> forall|i: int|
                0 <= i < entries@.len() ==> #[trigger] entries@[i].title@ == display_title(
                    self@[guild].queue.entries[i].track,
                ) && entries@[i].url@ == display_url(self@[guild].queue.entries[i].track),
    {
        proof {
            lemma_wf_iff(*self);
        }
        match self.find(guild) {
            Some(i) => {
                proof {
                    lemma_guild_index_unique(self.sessions@, guild, i as int);
                }
                Some(self.sessions[i].snapshot())
            },
            None => {
                proof {
                    lemma_view_absent(self.sessions@, guild);
                }
                None
            },
        }
    }

    /// Hands a resolution outcome to a guild's session.  Returns whether a
    /// still-queued entry carried the key; an outcome for a torn-down
    /// session or a departed entry is discarded.
    pub fn apply_resolution(
        &mut self,
        guild: u64,
        key: u64,
        outcome: Option<ResolvedMetadata>,
    ) -> (found: bool)
        requires
            old(self).wf(),
        ensures
            final(self).wf(),
            found == (old(self)@.dom().contains(guild) && old(self)@[guild].queue.has_key(key)),
            !old(self)@.dom().contains(guild) ==> final(self)@ == old(self)@,
            old(self)@.dom().contains(guild) ==> final(self)@ == old(self)@.insert(
                guild,
                old(self)@[guild].resolve_spec(key, outcome_model(outcome)),
            ),
    {
        proof {
            lemma_wf_iff(*old(self));
        }
        match self.find(guild) {
            Some(i) => {
                proof {
                    lemma_guild_index_unique(old(self).sessions@, guild, i as int);
                }
                let mut s = self.sessions.remove(i);
                let found = s.apply_resolution(key, outcome);
                self.sessions.insert(i, s);
                proof {
                    self.lemma_after_update(*old(self), i as int, guild);
                }
                found
            },
            None => {
                proof {
                    lemma_view_absent(self.sessions@, guild);
                }
                false
            },
        }
    }

    /// Registers the watchdog of a guild's session; arming an armed session
    /// is a silent no-op.  `None` when the guild has no session; otherwise
    /// the result says whether this call armed it.
    pub fn arm_watchdog(&mut self, guild: u64) -> (r: Option<bool>)
        requires
            old(self).wf(),
        ensures
            final(self).wf(),
            r is Some <==> old(self)@.dom().contains(guild),
            !old(self)@.dom().contains(guild) ==> final(self)@ == old(self)@,
            old(self)@.dom().contains(guild) ==> final(self)@ == old(self)@.insert(
                guild,
                old(self)@[guild].arm_spec(),
            ) && r == Some(old(self)@[guild].watchdog is Unarmed),
    {
        proof {
            lemma_wf_iff(*old(self));
        }
        match self.find(guild) {
            Some(i) => {
                proof {
                    lemma_guild_index_unique(old(self).sessions@, guild, i as int);
                }
                let mut s = self.sessions.remove(i);
                let newly = s.arm_watchdog();
                self.sessions.insert(i, s);
                proof {
                    self.lemma_after_update(*old(self), i as int, guild);
                }
                Some(newly)
            },
            None => {
                proof {
                    lemma_view_absent(self.sessions@, guild);
                }
                None
            },
        }
    }

    /// One watchdog inspection of a guild: a session found with an empty
    /// queue is removed and returned, its watchdog cancelled, so the caller
    /// can release the transport connection; any other session, and a guild
    /// without one, is left untouched.
    pub fn watchdog_tick(&mut self, guild: u64) -> (r: Option<VoiceSession>)
        requires
            old(self).wf(),
        ensures
            final(self).wf(),
            final(self)@ == tick_spec(old(self)@, guild),
            r is Some <==> (old(self)@.dom().contains(guild) && old(
                self,
            )@[guild].queue.entries.len() == 0),
            r matches Some(s) ==> s@ == old(self)@[guild].disarm_spec(),
    {
        proof {
            lemma_wf_iff(*old(self));
        }
        match self.find(guild) {
            Some(i) => {
                proof {
                    lemma_guild_index_unique(self.sessions@, guild, i as int);
                }
                let idle = self.sessions[i].queue_is_empty();
                if idle {
                    self.remove(guild)
                } else {
                    None
                }
            },
            None => {
                proof {
                    lemma_view_absent(self.sessions@, guild);
                    assert(final(self)@ =~= tick_spec(old(self)@, guild));
                }
                None
            },
        }
    }

    proof fn lemma_after_update(self, pre: Self, i: int, guild: u64)
        requires
            pre.wf(),
            0 <= i < pre.sessions@.len(),
            pre.sessions@[i]@.guild_id == guild,
            self.sessions@.len() == pre.sessions@.len(),
            self.sessions@[i]@.guild_id == guild,
            self.sessions@[i]@.wf(),
            forall|j: int| 0 <= j < pre.sessions@.len() && j != i ==> self.sessions@[j]
                == pre.sessions@[j],
        ensures
            self.wf(),
            self@ == pre@.insert(guild, self.sessions@[i]@),
            pre@.dom().contains(guild),
            pre@[guild] == pre.sessions@[i]@,
    {
        lemma_wf_iff(pre);
        lemma_guild_index_unique(pre.sessions@, guild, i);
        lemma_view_update(pre.sessions@, self.sessions@, i, guild);
        assert forall|j: int|
            0 <= j < self.sessions@.len() implies (#[trigger] self.sessions@[j])@.wf() by {
            if j != i {
                assert(self.sessions@[j] == pre.sessions@[j]);
            }
        }
        lemma_wf_iff(self);
        lemma_guild_index_unique(self.sessions@, guild, i);
    }
}

proof fn lemma_reinsert_same(m: Map<u64, SessionModel>, guild: u64)
    requires
        m.dom().contains(guild),
    ensures
        m.insert(guild, m[guild]) =~= m,
{
}

} // verus!
