//! Laws of the playback actor, proved over the worker's model.
//!
//! Each law quantifies over every worker state, so it holds at whatever
//! point in the command stream the commands in question arrive.

use vstd::prelude::*;

use crate::command::DeviceOp;
use crate::worker::Model;

verus! {

/// Law: after a `Play` whose file decoded, a state query reports
/// playback in progress at a non-negative position, whatever state the
/// worker was in before and whatever position the device reports.
pub proof fn lemma_play_then_playing(m: Model, path: String, device_pos_millis: u64)
    ensures
        m.after_play(path, true).snapshot(device_pos_millis).is_playing,
        m.after_play(path, true).snapshot(device_pos_millis).pos_millis >= 0,
        m.after_play(path, true).queue =~= seq![path],
{
}

/// Law: an `Append` never interrupts what is playing. The paused flag,
/// the cached snapshot (its position in particular) and every source
/// already queued stay exactly as they were — the new source, if it
/// decoded, only joins the tail — and the device is never asked to
/// clear, pause or restart anything.
pub proof fn lemma_append_does_not_interrupt(m: Model, path: String, decoded: bool)
    ensures
        m.after_append(path, decoded).paused == m.paused,
        m.after_append(path, decoded).state == m.state,
        m.after_append(path, decoded).volume_millis == m.volume_millis,
        m.after_append(path, decoded).queue.len() >= m.queue.len(),
        forall|i: int|
            0 <= i < m.queue.len() ==> m.after_append(path, decoded).queue[i] == m.queue[i],
        decoded ==> m.after_append(path, decoded).queue =~= m.queue.push(path),
        !Model::append_ops(decoded).contains(DeviceOp::Clear),
        !Model::append_ops(decoded).contains(DeviceOp::PausePlayback),
        !Model::append_ops(decoded).contains(DeviceOp::StartPlayback),
{
}

/// Law: after a `Stop`, a state query reports not playing, and the
/// queue is empty.
pub proof fn lemma_stop_then_not_playing(m: Model, device_pos_millis: u64)
    ensures
        !m.after_stop().snapshot(device_pos_millis).is_playing,
        !m.after_stop().after_get_state(device_pos_millis).state.is_playing,
        m.after_stop().queue.len() == 0,
{
}

/// Law: a `Pause` followed by a `Resume` leaves the worker reporting
/// playback in progress, and the pair never moves the position: the
/// cached position is untouched and the device is asked for nothing but
/// the two flag flips — no clear and no seek.
pub proof fn lemma_pause_resume_round_trip(m: Model, device_pos_millis: u64)
    ensures
        m.after_pause().after_resume().snapshot(device_pos_millis).is_playing,
        m.after_pause().after_resume().state.pos_millis == m.state.pos_millis,
        m.after_pause().after_resume().state == m.state,
        m.after_pause().after_resume().queue =~= m.queue,
        m.after_pause().after_resume().volume_millis == m.volume_millis,
{
}

/// Law: every snapshot is a complete, consistent copy of the worker's
/// state at the instant it is produced — a pure function of that state
/// and the one position the device reported, with no field left over
/// from some other moment. Callers that query concurrently each get a
/// whole snapshot because the worker serves their commands one at a
/// time, each through this one transition.
pub proof fn lemma_snapshot_well_formed(m: Model, device_pos_millis: u64)
    ensures
        m.snapshot(device_pos_millis).is_playing == !m.paused,
        m.snapshot(device_pos_millis).pos_millis == device_pos_millis,
        m.snapshot(device_pos_millis).duration_millis == m.state.duration_millis,
        m.after_get_state(device_pos_millis).state == m.snapshot(device_pos_millis),
        m.after_get_state(device_pos_millis).queue =~= m.queue,
        m.after_get_state(device_pos_millis).paused == m.paused,
        m.after_get_state(device_pos_millis).volume_millis == m.volume_millis,
{
}

/// Law: a `Play` or `Append` whose file could not be opened or decoded
/// is local to that one command: the worker is left exactly as it was
/// and the device is asked to do nothing. (The transport still reports
/// success for posting such a command: the facade never looks at the
/// file.)
pub proof fn lemma_failed_media_is_local(m: Model, path: String)
    ensures
        m.after_play(path, false) == m,
        m.after_append(path, false) == m,
        Model::play_ops(false) =~= Seq::<DeviceOp>::empty(),
        Model::append_ops(false) =~= Seq::<DeviceOp>::empty(),
{
}

} // verus!
