//! The client facade: one thin function per command, callable from any
//! thread that holds the mailbox.
//!
//! Each function posts its command and returns as soon as the mailbox
//! accepts it; only `get_state` also waits for the worker's reply. The
//! one failure any of them reports is a disconnected channel — a worker
//! that merely has not got to the command yet is invisible here.

use vstd::prelude::*;

use crate::command::Command;
use crate::mailbox::Mailbox;
use crate::mailbox::channel_recv;
use crate::mailbox::new_channel;
use crate::state::AudioState;

verus! {

/// Ask the worker to replace the queue with `file_path` and play it.
/// A media error at the worker is not reported here: the result only
/// says whether the mailbox accepted the command.
pub fn play_beat(mailbox: &Mailbox, file_path: String) -> (r: Result<(), String>)
    ensures
        r matches Err(m) ==> m@ == "Failed to send play message: mailbox disconnected"@,
{
    match mailbox.send(Command::Play(file_path)) {
        Ok(()) => Ok(()),
        Err(_) => Err("Failed to send play message: mailbox disconnected".to_owned()),
    }
}

/// Ask the worker to enqueue `file_path` after the current tail,
/// without interrupting what is playing.
pub fn append(mailbox: &Mailbox, file_path: String) -> (r: Result<(), String>)
    ensures
        r matches Err(m) ==> m@ == "Failed to send append message: mailbox disconnected"@,
{
    match mailbox.send(Command::Append(file_path)) {
        Ok(()) => Ok(()),
        Err(_) => Err("Failed to send append message: mailbox disconnected".to_owned()),
    }
}

/// Ask the worker to pause playback.
pub fn pause(mailbox: &Mailbox) -> (r: Result<(), String>)
    ensures
        r matches Err(m) ==> m@ == "Failed to send pause message: mailbox disconnected"@,
{
    match mailbox.send(Command::Pause) {
        Ok(()) => Ok(()),
        Err(_) => Err("Failed to send pause message: mailbox disconnected".to_owned()),
    }
}

/// Ask the worker to resume playback.
pub fn resume(mailbox: &Mailbox) -> (r: Result<(), String>)
    ensures
        r matches Err(m) ==> m@ == "Failed to send resume message: mailbox disconnected"@,
{
    match mailbox.send(Command::Resume) {
        Ok(()) => Ok(()),
        Err(_) => Err("Failed to send resume message: mailbox disconnected".to_owned()),
    }
}

/// Ask the worker to drop the queue and any buffered audio.
pub fn stop(mailbox: &Mailbox) -> (r: Result<(), String>)
    ensures
        r matches Err(m) ==> m@ == "Failed to send stop message: mailbox disconnected"@,
{
    match mailbox.send(Command::Stop) {
        Ok(()) => Ok(()),
        Err(_) => Err("Failed to send stop message: mailbox disconnected".to_owned()),
    }
}

/// Ask the worker to set the device gain, in thousandths of full volume
/// (1000 = 1.0). The level is not clamped anywhere on the way.
pub fn set_volume(mailbox: &Mailbox, volume_millis: u32) -> (r: Result<(), String>)
    ensures
        r matches Err(m) ==> m@ == "Failed to send set_volume message: mailbox disconnected"@,
{
    match mailbox.send(Command::SetVolume(volume_millis)) {
        Ok(()) => Ok(()),
        Err(_) => Err("Failed to send set_volume message: mailbox disconnected".to_owned()),
    }
}

/// Ask the worker to reposition playback to `target_millis`, best
/// effort: a device that cannot seek swallows the request, so success
/// here only means the command was accepted.
pub fn seek(mailbox: &Mailbox, target_millis: u64) -> (r: Result<(), String>)
    ensures
        r matches Err(m) ==> m@ == "Failed to send seek message: mailbox disconnected"@,
{
    match mailbox.send(Command::Seek(target_millis)) {
        Ok(()) => Ok(()),
        Err(_) => Err("Failed to send seek message: mailbox disconnected".to_owned()),
    }
}

/// Ask the worker for a fresh snapshot and wait for its reply.
///
/// The call blocks the caller until the worker serves the command; no
/// timeout is enforced, so a worker that died before ever running its
/// loop leaves the mailbox accepting commands and this reply never
/// coming — except that the dropped reply sender then ends the wait
/// with an error.
pub fn get_state(mailbox: &Mailbox) -> (r: Result<AudioState, String>)
    ensures
        r matches Err(m) ==> (m@ == "Failed to send get_state message: mailbox disconnected"@
            || m@ == "Failed to receive audio state: reply channel closed"@),
{
    let (reply_tx, reply_rx) = new_channel();
    match mailbox.send(Command::GetState(reply_tx)) {
        Ok(()) => {},
        Err(_) => {
            return Err("Failed to send get_state message: mailbox disconnected".to_owned());
        },
    }
    match channel_recv(&reply_rx) {
        Some(snapshot) => Ok(snapshot),
        None => Err("Failed to receive audio state: reply channel closed".to_owned()),
    }
}

} // verus!
