//! The playback actor: the one owner of the device binding and queue.
//!
//! The worker reacts to one command at a time. Each reaction is a pure
//! state transition plus a short list of operations for the device
//! binding; the transitions are specified on the worker's mathematical
//! model and proved on the executable methods.

use vstd::prelude::*;

use crate::command::Command;
use crate::command::DeviceOp;
use crate::command::Event;
use crate::command::event_fits;
use crate::mailbox::channel_send;
use crate::state::AudioState;

verus! {

/// The worker's state as mathematics: the paths of the queued sources
/// (head = currently playing), the device's paused flag, the last gain
/// handed to the device (thousandths), and the cached snapshot.
#[verifier::ext_equal]
pub struct Model {
    pub queue: Seq<String>,
    pub paused: bool,
    pub volume_millis: u32,
    pub state: AudioState,
}

impl Model {
    /// A fresh worker: empty queue, device not paused (a new sink reports
    /// not-paused before anything has played), full gain, initial cache.
    pub open spec fn initial() -> Model {
        Model {
            queue: Seq::empty(),
            paused: false,
            volume_millis: 1000,
            state: AudioState::initial(),
        }
    }

    /// `Play`: on a successful decode the queue is replaced by the new
    /// source alone and playback starts; on a failed decode nothing
    /// changes at all.
    pub open spec fn after_play(self, path: String, decoded: bool) -> Model {
        if decoded {
            Model {
                queue: seq![path],
                paused: false,
                volume_millis: self.volume_millis,
                state: self.state,
            }
        } else {
            self
        }
    }

    pub open spec fn play_ops(decoded: bool) -> Seq<DeviceOp> {
        if decoded {
            seq![DeviceOp::Clear, DeviceOp::Enqueue, DeviceOp::StartPlayback]
        } else {
            Seq::empty()
        }
    }

    /// `Append`: on a successful decode the new source goes after the
    /// current tail and nothing else moves; on a failure nothing changes.
    pub open spec fn after_append(self, path: String, decoded: bool) -> Model {
        if decoded {
            Model {
                queue: self.queue.push(path),
                paused: self.paused,
                volume_millis: self.volume_millis,
                state: self.state,
            }
        } else {
            self
        }
    }

    pub open spec fn append_ops(decoded: bool) -> Seq<DeviceOp> {
        if decoded {
            seq![DeviceOp::Enqueue]
        } else {
            Seq::empty()
        }
    }

    /// `Pause`: the device's paused flag is set; a no-op if already set.
    pub open spec fn after_pause(self) -> Model {
        Model {
            queue: self.queue,
            paused: true,
            volume_millis: self.volume_millis,
            state: self.state,
        }
    }

    /// `Resume`: the paused flag is cleared; a no-op if already clear.
    pub open spec fn after_resume(self) -> Model {
        Model {
            queue: self.queue,
            paused: false,
            volume_millis: self.volume_millis,
            state: self.state,
        }
    }

    /// `Stop`: the queue and device buffer are cleared; clearing pauses
    /// the device, so the playing flag becomes false. The cached
    /// snapshot is left as it was (it is refreshed by the next query).
    pub open spec fn after_stop(self) -> Model {
        Model {
            queue: Seq::empty(),
            paused: true,
            volume_millis: self.volume_millis,
            state: self.state,
        }
    }

    /// `SetVolume`: the level is handed through unclamped.
    pub open spec fn after_set_volume(self, volume_millis: u32) -> Model {
        Model {
            queue: self.queue,
            paused: self.paused,
            volume_millis: volume_millis,
            state: self.state,
        }
    }

    /// The snapshot a state query produces: playing is the negation of
    /// paused, the position is whatever the device reported, and the
    /// duration is never computed by this core.
    pub open spec fn snapshot(self, device_pos_millis: u64) -> AudioState {
        AudioState {
            is_playing: !self.paused,
            pos_millis: device_pos_millis,
            duration_millis: self.state.duration_millis,
        }
    }

    /// `GetState`: the cache is refreshed with the snapshot; the queue
    /// and device are untouched.
    pub open spec fn after_get_state(self, device_pos_millis: u64) -> Model {
        Model {
            queue: self.queue,
            paused: self.paused,
            volume_millis: self.volume_millis,
            state: self.snapshot(device_pos_millis),
        }
    }
}

/// The worker's exclusive, never-shared state: the queued source paths,
/// the device's paused flag, the last gain set, and the cached snapshot.
#[derive(Debug)]
pub struct Worker {
    pub queue: Vec<String>,
    pub paused: bool,
    pub volume_millis: u32,
    pub state: AudioState,
}

impl View for Worker {
    type V = Model;

    open spec fn view(&self) -> Model {
        Model {
            queue: self.queue@,
            paused: self.paused,
            volume_millis: self.volume_millis,
            state: self.state,
        }
    }
}

impl Worker {
    pub fn new() -> (w: Worker)
        ensures
            w@ == Model::initial(),
    {
        let w = Worker {
            queue: Vec::new(),
            paused: false,
            volume_millis: 1000,
            state: AudioState::new(),
        };
        w
    }

    /// Serve `Play`: `decoded` reports whether the embedding program
    /// could open and decode `path`. On success the device is told to
    /// clear its buffer, enqueue the fresh source and start playing; a
    /// media error is local and leaves everything unchanged.
    pub fn play(&mut self, path: String, decoded: bool) -> (ops: Vec<DeviceOp>)
        ensures
            final(self)@ == old(self)@.after_play(path, decoded),
            ops@ == Model::play_ops(decoded),
    {
        let mut ops: Vec<DeviceOp> = Vec::new();
        if decoded {
            let mut q: Vec<String> = Vec::new();
            q.push(path);
            self.queue = q;
            self.paused = false;
            ops.push(DeviceOp::Clear);
            ops.push(DeviceOp::Enqueue);
            ops.push(DeviceOp::StartPlayback);
        }
        ops
    }

    /// Serve `Append`: on a successful decode the source joins the end
    /// of the queue without interrupting playback; a media error leaves
    /// everything unchanged.
    pub fn append(&mut self, path: String, decoded: bool) -> (ops: Vec<DeviceOp>)
        ensures
            final(self)@ == old(self)@.after_append(path, decoded),
            ops@ == Model::append_ops(decoded),
    {
        let mut ops: Vec<DeviceOp> = Vec::new();
        if decoded {
            self.queue.push(path);
            ops.push(DeviceOp::Enqueue);
        }
        ops
    }

    /// Serve `Pause`.
    pub fn pause(&mut self) -> (ops: Vec<DeviceOp>)
        ensures
            final(self)@ == old(self)@.after_pause(),
            ops@ == seq![DeviceOp::PausePlayback],
    {
        self.paused = true;
        let mut ops: Vec<DeviceOp> = Vec::new();
        ops.push(DeviceOp::PausePlayback);
        ops
    }

    /// Serve `Resume`.
    pub fn resume(&mut self) -> (ops: Vec<DeviceOp>)
        ensures
            final(self)@ == old(self)@.after_resume(),
            ops@ == seq![DeviceOp::StartPlayback],
    {
        self.paused = false;
        let mut ops: Vec<DeviceOp> = Vec::new();
        ops.push(DeviceOp::StartPlayback);
        ops
    }

    /// Serve `Stop`: the queue and any buffered audio are dropped and
    /// the playing flag becomes false.
    pub fn stop(&mut self) -> (ops: Vec<DeviceOp>)
        ensures
            final(self)@ == old(self)@.after_stop(),
            ops@ == seq![DeviceOp::Clear],
    {
        self.queue = Vec::new();
        self.paused = true;
        let mut ops: Vec<DeviceOp> = Vec::new();
        ops.push(DeviceOp::Clear);
        ops
    }

    /// Serve `SetVolume`: the caller is responsible for a sane range;
    /// the level is passed through to the device unclamped.
    pub fn set_volume(&mut self, volume_millis: u32) -> (ops: Vec<DeviceOp>)
        ensures
            final(self)@ == old(self)@.after_set_volume(volume_millis),
            ops@ == seq![DeviceOp::SetGain(volume_millis)],
    {
        self.volume_millis = volume_millis;
        let mut ops: Vec<DeviceOp> = Vec::new();
        ops.push(DeviceOp::SetGain(volume_millis));
        ops
    }

    /// Serve `Seek`: the device is asked to reposition, best-effort; a
    /// refusal is swallowed, so the worker itself never changes.
    pub fn seek(&self, target_millis: u64) -> (ops: Vec<DeviceOp>)
        ensures
            ops@ == seq![DeviceOp::TrySeek(target_millis)],
    {
        let mut ops: Vec<DeviceOp> = Vec::new();
        ops.push(DeviceOp::TrySeek(target_millis));
        ops
    }

    /// Serve `GetState`: `device_pos_millis` is the position the device
    /// reported. The returned snapshot is complete and consistent — a
    /// pure function of the worker's state and that one report — and it
    /// also becomes the new cache.
    pub fn get_state(&mut self, device_pos_millis: u64) -> (s: AudioState)
        ensures
            final(self)@ == old(self)@.after_get_state(device_pos_millis),
            s == old(self)@.snapshot(device_pos_millis),
    {
        self.state = AudioState {
            is_playing: !self.paused,
            pos_millis: device_pos_millis,
            duration_millis: self.state.duration_millis,
        };
        self.state
    }
}

/// The worker's next state once `cmd` has been served with report `ev`.
pub open spec fn after_command(m: Model, cmd: Command, ev: Event) -> Model {
    match cmd {
        Command::Play(path) => m.after_play(path, ev->decoded),
        Command::Append(path) => m.after_append(path, ev->decoded),
        Command::Pause => m.after_pause(),
        Command::Resume => m.after_resume(),
        Command::Stop => m.after_stop(),
        Command::SetVolume(v) => m.after_set_volume(v),
        Command::Seek(_) => m,
        Command::GetState(_) => m.after_get_state(ev->millis),
    }
}

/// The device operations serving `cmd` with report `ev` asks for.
pub open spec fn command_ops(cmd: Command, ev: Event) -> Seq<DeviceOp> {
    match cmd {
        Command::Play(_) => Model::play_ops(ev->decoded),
        Command::Append(_) => Model::append_ops(ev->decoded),
        Command::Pause => seq![DeviceOp::PausePlayback],
        Command::Resume => seq![DeviceOp::StartPlayback],
        Command::Stop => seq![DeviceOp::Clear],
        Command::SetVolume(v) => seq![DeviceOp::SetGain(v)],
        Command::Seek(t) => seq![DeviceOp::TrySeek(t)],
        Command::GetState(_) => Seq::empty(),
    }
}

impl Worker {
    /// Serve one command to completion, the only synchronization the
    /// actor needs: the loop that owns the worker calls this once per
    /// received command, with the report the command called for, and
    /// performs the returned device operations in order.
    ///
    /// For `GetState` the fresh snapshot is sent on the reply channel the
    /// command carries; a dropped reply receiver is never fatal to the
    /// worker, so that outcome is ignored here.
    pub fn handle_command(&mut self, cmd: Command, ev: Event) -> (ops: Vec<DeviceOp>)
        requires
            event_fits(cmd, ev),
        ensures
            final(self)@ == after_command(old(self)@, cmd, ev),
            ops@ == command_ops(cmd, ev),
    {
        match cmd {
            Command::Play(path) => {
                let decoded = match ev {
                    Event::Media { decoded } => decoded,
                    _ => false,
                };
                self.play(path, decoded)
            },
            Command::Append(path) => {
                let decoded = match ev {
                    Event::Media { decoded } => decoded,
                    _ => false,
                };
                self.append(path, decoded)
            },
            Command::Pause => self.pause(),
            Command::Resume => self.resume(),
            Command::Stop => self.stop(),
            Command::SetVolume(v) => self.set_volume(v),
            Command::Seek(t) => self.seek(t),
            Command::GetState(reply) => {
                let millis = match ev {
                    Event::Position { millis } => millis,
                    _ => 0,
                };
                let snap = self.get_state(millis);
                let _ = channel_send(&reply, snap);
                Vec::new()
            },
        }
    }
}

} // verus!
