//! The idle watchdog: a per-session recurring timer that disconnects a
//! session once its queue is found empty.  The timer itself runs outside the
//! library; what is verified here is the state it keeps and the decision its
//! tick takes.

use vstd::prelude::*;
use crate::session::SessionModel;

verus! {

/// Seconds between two watchdog inspections of a session's queue.
pub const IDLE_TIMEOUT_SECS: u64 = 420;

/// Whether a session's watchdog timer is registered.  At most one armed
/// watchdog exists per session: arming is an idempotent bit, so a second
/// registration attempt is a silent no-op.
#[derive(Clone, Copy, Debug, PartialEq, Eq, Structural)]
pub enum WatchdogState {
    Armed,
    Unarmed,
}

/// What one watchdog tick does to the registry's sessions: a session whose
/// queue is empty is removed; any other session is left exactly as it is.
pub open spec fn tick_spec(
    sessions: Map<u64, SessionModel>,
    guild: u64,
) -> Map<u64, SessionModel> {
    if sessions.dom().contains(guild) && sessions[guild].queue.entries.len() == 0 {
        sessions.remove(guild)
    } else {
        sessions
    }
}

/// `count` consecutive watchdog ticks for `guild`, with no other operation
/// in between.
pub open spec fn ticks_spec(
    sessions: Map<u64, SessionModel>,
    guild: u64,
    count: nat,
) -> Map<u64, SessionModel>
    decreases count,
{
    if count == 0 {
        sessions
    } else {
        tick_spec(ticks_spec(sessions, guild, (count - 1) as nat), guild)
    }
}

/// A session found with an empty queue is gone after the very next tick:
/// the watchdog removes it within one inspection interval.
pub proof fn lemma_tick_removes_idle_session(sessions: Map<u64, SessionModel>, guild: u64)
    requires
        sessions.dom().contains(guild),
        sessions[guild].queue.entries.len() == 0,
    ensures
        !tick_spec(sessions, guild).dom().contains(guild),
{
}

/// A session whose queue is non-empty is never removed by the watchdog:
/// any number of consecutive ticks leaves the sessions untouched.
pub proof fn lemma_ticks_spare_active_session(
    sessions: Map<u64, SessionModel>,
    guild: u64,
    count: nat,
)
    requires
        sessions.dom().contains(guild) ==> sessions[guild].queue.entries.len() > 0,
    ensures
        ticks_spec(sessions, guild, count) == sessions,
    decreases count,
{
    if count > 0 {
        lemma_ticks_spare_active_session(sessions, guild, (count - 1) as nat);
    }
}

} // verus!
