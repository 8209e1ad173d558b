//! Commands, the events the device reports while serving them, and the
//! operations the worker asks the device to perform.

use vstd::prelude::*;

use crate::state::AudioState;

verus! {

/// One message in the worker's mailbox; exactly one variant per operation.
///
/// `GetState` is the only variant carrying a reply channel; every other
/// variant is one-way. Volume levels are thousandths of full gain
/// (1000 = 1.0) and seek offsets are milliseconds.
pub enum Command {
    Play(String),
    Append(String),
    Pause,
    Resume,
    Stop,
    SetVolume(u32),
    Seek(u64),
    GetState(std::sync::mpsc::Sender<AudioState>),
}

/// What the outside world reported while one command was served:
/// whether a file could be opened and decoded (for `Play` / `Append`),
/// the device's playback position in milliseconds (for `GetState`),
/// and nothing for the commands that need no report.
#[derive(Clone, Copy, Debug, PartialEq, Eq, Structural)]
pub enum Event {
    Media { decoded: bool },
    Position { millis: u64 },
    Unit,
}

/// An operation the worker asks the device binding to perform, in order.
///
/// `Enqueue` refers to the source that was just decoded for the command
/// being served; the worker never holds the decoded bytes itself.
#[derive(Clone, Copy, Debug, PartialEq, Eq, Structural)]
pub enum DeviceOp {
    Clear,
    Enqueue,
    StartPlayback,
    PausePlayback,
    SetGain(u32),
    TrySeek(u64),
}

/// The one failure a caller is reliably told about: the mailbox (or a
/// reply channel) has lost its other end.
#[derive(Clone, Copy, Debug, PartialEq, Eq, Structural)]
pub enum ChannelError {
    Disconnected,
}

/// Whether an event is the kind of report the command calls for.
pub open spec fn event_fits(cmd: Command, ev: Event) -> bool {
    match cmd {
        Command::Play(_) => ev is Media,
        Command::Append(_) => ev is Media,
        Command::GetState(_) => ev is Position,
        _ => ev is Unit,
    }
}

} // verus!
