use beatbank::command::DeviceOp;
use beatbank::state::AudioState;
use beatbank::worker::Worker;

#[test]
fn fresh_worker_matches_initial_state() {
    let w = Worker::new();
    assert_eq!(w.queue.len(), 0);
    assert!(!w.paused);
    assert_eq!(w.volume_millis, 1000);
    assert_eq!(
        w.state,
        AudioState { is_playing: false, pos_millis: 0, duration_millis: 0 }
    );
}

#[test]
fn play_starts_playback_at_nonnegative_position() {
    let mut w = Worker::new();
    let ops = w.play("a.wav".to_string(), true);
    assert_eq!(
        ops,
        vec![DeviceOp::Clear, DeviceOp::Enqueue, DeviceOp::StartPlayback]
    );
    assert_eq!(w.queue, vec!["a.wav".to_string()]);
    assert!(!w.paused);
    let s = w.get_state(0);
    assert!(s.is_playing);
    assert!(s.pos_millis >= 0);
}

#[test]
fn play_replaces_whatever_was_queued() {
    let mut w = Worker::new();
    w.play("a.wav".to_string(), true);
    w.append("b.wav".to_string(), true);
    let ops = w.play("c.wav".to_string(), true);
    assert_eq!(ops[0], DeviceOp::Clear);
    assert_eq!(w.queue, vec!["c.wav".to_string()]);
}

#[test]
fn failed_play_leaves_worker_unchanged() {
    let mut w = Worker::new();
    w.play("a.wav".to_string(), true);
    let before_queue = w.queue.clone();
    let before_paused = w.paused;
    let before_state = w.state;
    let ops = w.play("does_not_exist.wav".to_string(), false);
    assert!(ops.is_empty());
    assert_eq!(w.queue, before_queue);
    assert_eq!(w.paused, before_paused);
    assert_eq!(w.state, before_state);
}

#[test]
fn failed_append_leaves_worker_unchanged() {
    let mut w = Worker::new();
    w.play("a.wav".to_string(), true);
    let before_queue = w.queue.clone();
    let ops = w.append("does_not_exist.wav".to_string(), false);
    assert!(ops.is_empty());
    assert_eq!(w.queue, before_queue);
}

#[test]
fn append_does_not_reset_position_or_interrupt() {
    let mut w = Worker::new();
    w.play("a.wav".to_string(), true);
    let s = w.get_state(4250);
    assert!(s.is_playing);
    let ops = w.append("b.wav".to_string(), true);
    assert_eq!(ops, vec![DeviceOp::Enqueue]);
    assert!(!ops.contains(&DeviceOp::Clear));
    assert!(!ops.contains(&DeviceOp::PausePlayback));
    assert!(!ops.contains(&DeviceOp::StartPlayback));
    assert_eq!(w.state.pos_millis, 4250);
    assert!(!w.paused);
    assert_eq!(w.queue, vec!["a.wav".to_string(), "b.wav".to_string()]);
}

#[test]
fn stop_reports_not_playing_afterwards() {
    let mut w = Worker::new();
    w.play("a.wav".to_string(), true);
    let ops = w.stop();
    assert_eq!(ops, vec![DeviceOp::Clear]);
    assert_eq!(w.queue.len(), 0);
    let s = w.get_state(0);
    assert!(!s.is_playing);
}

#[test]
fn pause_then_resume_keeps_playing_and_position() {
    let mut w = Worker::new();
    w.play("a.wav".to_string(), true);
    w.get_state(9000);
    let pos_before = w.state.pos_millis;
    let pause_ops = w.pause();
    assert_eq!(pause_ops, vec![DeviceOp::PausePlayback]);
    let resume_ops = w.resume();
    assert_eq!(resume_ops, vec![DeviceOp::StartPlayback]);
    assert!(w.state.pos_millis >= pos_before);
    let s = w.get_state(9000);
    assert!(s.is_playing);
    assert!(s.pos_millis >= pos_before);
}

#[test]
fn pause_is_reported_as_not_playing() {
    let mut w = Worker::new();
    w.play("a.wav".to_string(), true);
    w.pause();
    let s = w.get_state(1234);
    assert!(!s.is_playing);
    assert_eq!(s.pos_millis, 1234);
}

#[test]
fn set_volume_passes_level_through_unclamped() {
    let mut w = Worker::new();
    let ops = w.set_volume(500);
    assert_eq!(ops, vec![DeviceOp::SetGain(500)]);
    assert_eq!(w.volume_millis, 500);
    // Out of the expected 0..=1000 range: handed through untouched.
    let ops = w.set_volume(2500);
    assert_eq!(ops, vec![DeviceOp::SetGain(2500)]);
    assert_eq!(w.volume_millis, 2500);
}

#[test]
fn seek_is_best_effort_and_touches_nothing() {
    let mut w = Worker::new();
    w.play("a.wav".to_string(), true);
    let before_queue = w.queue.clone();
    let before_state = w.state;
    let ops = w.seek(10_000);
    assert_eq!(ops, vec![DeviceOp::TrySeek(10_000)]);
    assert_eq!(w.queue, before_queue);
    assert_eq!(w.state, before_state);
}

#[test]
fn duration_is_never_populated_by_this_core() {
    // get_state reports whatever duration the cache holds; nothing in
    // the playback core ever probes one, so it stays at zero.
    let mut w = Worker::new();
    w.play("a.wav".to_string(), true);
    w.append("b.wav".to_string(), true);
    w.seek(5_000);
    let s = w.get_state(5_000);
    assert_eq!(s.duration_millis, 0);
}

#[test]
fn scenario_play_volume_seek_stop() {
    let mut w = Worker::new();
    let ops = w.play("a.wav".to_string(), true);
    assert_eq!(
        ops,
        vec![DeviceOp::Clear, DeviceOp::Enqueue, DeviceOp::StartPlayback]
    );
    let ops = w.set_volume(500);
    assert_eq!(ops, vec![DeviceOp::SetGain(500)]);
    let s = w.get_state(0);
    assert!(s.is_playing);

    let ops = w.seek(10_000);
    assert_eq!(ops, vec![DeviceOp::TrySeek(10_000)]);
    // The device honoured the seek and reports the new offset.
    let s = w.get_state(10_000);
    assert_eq!(s.pos_millis, 10_000);

    let ops = w.stop();
    assert_eq!(ops, vec![DeviceOp::Clear]);
    let s = w.get_state(10_000);
    assert!(!s.is_playing);
}

#[test]
fn fresh_device_reports_not_paused() {
    // Faithful quirk: a fresh device binding is not paused even though
    // nothing is queued, so a query before the first Play already
    // reports is_playing == true.
    let mut w = Worker::new();
    let s = w.get_state(0);
    assert!(s.is_playing);
    assert_eq!(s.pos_millis, 0);
}
