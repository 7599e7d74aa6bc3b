//! The shuffle loop's decisions. The loop plays one track at a time: it loads
//! a random track of the pool into the handle, then probes the handle every
//! polling period until it has drained, and starts over. It never holds the
//! handle while it waits, so control requests are served between probes.
//!
//! A track that cannot be opened or decoded is skipped: another is picked.

use vstd::prelude::*;
use crate::pool::{spec_is_track_name, Pool};

verus! {

/// How long the loop sleeps between two probes of a busy handle, in milliseconds.
pub const POLL_PERIOD_MS: u64 = 1000;

/// What happened since the loop's last action.
#[derive(Clone, Copy, Debug, PartialEq, Eq, Structural)]
pub enum LoopEvent {
    /// The loop has just begun.
    Started,
    /// The track asked for was decoded and appended to the handle.
    Appended,
    /// The track asked for could not be opened or decoded.
    LoadFailed,
    /// The handle was probed; `true` when it had drained all it was given.
    Probed(bool),
    /// A polling period went by.
    Slept,
}

/// What the loop does next.
#[derive(Clone, Debug, PartialEq, Eq)]
pub enum LoopAction {
    /// Open and decode the named track and append it to the handle.
    Load(String),
    /// Ask the handle, under its lock, whether it has drained.
    Probe,
    /// Sleep for this many milliseconds, holding nothing.
    Sleep(u64),
}

/// Whether the event calls for a new track.
pub open spec fn wants_track(event: LoopEvent) -> bool {
    match event {
        LoopEvent::Started | LoopEvent::LoadFailed | LoopEvent::Probed(true) => true,
        _ => false,
    }
}

/// Decides the loop's next action: a new random track of the pool when the
/// loop starts, when the handle has drained, or when a track failed to load;
/// a probe after a track was appended or after a sleep; a sleep of one polling
/// period while the handle still plays.
pub fn next_step(pool: &Pool, event: LoopEvent) -> (r: LoopAction)
    ensures
        wants_track(event) ==> (r matches LoopAction::Load(t) && pool@.contains(t)
            && spec_is_track_name(t@)),
        event == LoopEvent::Appended || event == LoopEvent::Slept ==> r == LoopAction::Probe,
        event == LoopEvent::Probed(false) ==> r == LoopAction::Sleep(POLL_PERIOD_MS),
{
    match event {
        LoopEvent::Appended | LoopEvent::Slept => LoopAction::Probe,
        LoopEvent::Probed(false) => LoopAction::Sleep(POLL_PERIOD_MS),
        _ => LoopAction::Load(pool.pick_track().clone()),
    }
}

} // verus!
