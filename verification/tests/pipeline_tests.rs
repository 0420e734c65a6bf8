use scope_core::{residual_sample, AudioCore, DeviceError, SlidingWindow, SourceId, StreamId};

fn empty_snapshots(core: &AudioCore) -> (Vec<i64>, Vec<i64>, Vec<i64>) {
    (
        core.snapshot(StreamId::Microphone),
        core.snapshot(StreamId::SystemOutput),
        core.snapshot(StreamId::Residual),
    )
}

#[test]
fn residual_equals_mic_when_system_window_empty() {
    let sys = SlidingWindow::new(4);
    assert_eq!(residual_sample(400_000, &sys), 400_000);
    assert_eq!(residual_sample(-7, &sys), -7);
    assert_eq!(residual_sample(0, &sys), 0);
}

#[test]
fn residual_subtracts_oldest_system_sample() {
    // System-output head 0.25 (scaled), mic sample 0.40 (scaled):
    // residual is exactly 0.15 (scaled).
    let mut sys = SlidingWindow::new(4);
    sys.push(250_000);
    sys.push(999_999);
    assert_eq!(residual_sample(400_000, &sys), 150_000);
}

#[test]
fn residual_uses_head_after_eviction() {
    let mut sys = SlidingWindow::new(2);
    sys.push(100);
    sys.push(200);
    sys.push(300);
    // Window now holds [200, 300]; the oldest resident sample is 200.
    assert_eq!(residual_sample(500, &sys), 300);
}

#[test]
fn new_core_starts_empty_and_stopped() {
    let core = AudioCore::new(16, SourceId::Microphone);
    assert_eq!(core.capacity(), 16);
    assert_eq!(core.current_source(), SourceId::Microphone);
    assert!(!core.is_playing());
    let (m, s, r) = empty_snapshots(&core);
    assert!(m.is_empty() && s.is_empty() && r.is_empty());
}

#[test]
fn start_is_idempotent() {
    let mut core = AudioCore::new(8, SourceId::Microphone);
    core.start();
    assert!(core.is_playing());
    core.start();
    assert!(core.is_playing());
    assert_eq!(core.current_source(), SourceId::Microphone);
}

#[test]
fn tick_with_empty_channels_is_a_noop() {
    let mut core = AudioCore::new(8, SourceId::Microphone);
    let tsys = core.sender_token(SourceId::SystemOutput);
    let tmic = core.sender_token(SourceId::Microphone);
    core.send_sample(tsys, 11);
    core.send_sample(tmic, 22);
    core.tick();
    let before = empty_snapshots(&core);
    core.tick();
    let after = empty_snapshots(&core);
    assert_eq!(before, after);
}

#[test]
fn end_to_end_tick_fills_all_three_windows() {
    // Scaled stand-ins for 0.1, 0.2, 0.3 on the system-output channel and
    // 0.5 on the microphone channel: one tick leaves the system window
    // [0.1, 0.2, 0.3], the mic window [0.5], and the residual window
    // [0.5 - 0.1] = [0.4], the subtraction using the oldest system sample.
    let mut core = AudioCore::new(1000, SourceId::Microphone);
    let tsys = core.sender_token(SourceId::SystemOutput);
    let tmic = core.sender_token(SourceId::Microphone);
    core.send_sample(tsys, 100_000);
    core.send_sample(tsys, 200_000);
    core.send_sample(tsys, 300_000);
    core.send_sample(tmic, 500_000);
    core.tick();
    assert_eq!(core.snapshot(StreamId::SystemOutput), vec![100_000, 200_000, 300_000]);
    assert_eq!(core.snapshot(StreamId::Microphone), vec![500_000]);
    assert_eq!(core.snapshot(StreamId::Residual), vec![400_000]);
}

#[test]
fn system_samples_drained_first_feed_same_tick_residuals() {
    // Both channels fill between ticks; the residual still sees the
    // system-output data drained earlier in the same cycle.
    let mut core = AudioCore::new(8, SourceId::Microphone);
    let tsys = core.sender_token(SourceId::SystemOutput);
    let tmic = core.sender_token(SourceId::Microphone);
    core.send_sample(tmic, 7);
    core.send_sample(tsys, 3);
    core.tick();
    assert_eq!(core.snapshot(StreamId::Residual), vec![4]);
}

#[test]
fn residual_appended_per_mic_sample() {
    let mut core = AudioCore::new(8, SourceId::Microphone);
    let tsys = core.sender_token(SourceId::SystemOutput);
    let tmic = core.sender_token(SourceId::Microphone);
    core.send_sample(tsys, 10);
    core.send_sample(tmic, 100);
    core.send_sample(tmic, 200);
    core.tick();
    // Each drained mic sample deposits one residual, both against the same
    // system head.
    assert_eq!(core.snapshot(StreamId::Residual), vec![90, 190]);
}

#[test]
fn switch_success_swaps_source_and_silences_old_sender() {
    let mut core = AudioCore::new(8, SourceId::Microphone);
    core.start();
    assert!(core.is_playing());
    let old_mic = core.sender_token(SourceId::Microphone);
    let new_token = core.switch_source(Ok(())).expect("swap reported success");
    assert_eq!(core.current_source(), SourceId::SystemOutput);
    assert!(core.is_playing());
    assert_eq!(new_token.source, SourceId::SystemOutput);
    // A callback racing with teardown still sends on the replaced binding's
    // token: those samples must never appear in any window.
    core.send_sample(old_mic, 123);
    core.send_sample(old_mic, 456);
    core.tick();
    let (m, s, r) = empty_snapshots(&core);
    assert!(m.is_empty() && s.is_empty() && r.is_empty());
    // The fresh binding's token is honoured.
    core.send_sample(new_token, 55);
    core.tick();
    assert_eq!(core.snapshot(StreamId::SystemOutput), vec![55]);
}

#[test]
fn switch_back_again_restores_microphone() {
    let mut core = AudioCore::new(8, SourceId::Microphone);
    core.switch_source(Ok(())).expect("first swap");
    let t = core.switch_source(Ok(())).expect("second swap");
    assert_eq!(core.current_source(), SourceId::Microphone);
    assert_eq!(t.source, SourceId::Microphone);
    core.send_sample(t, 9);
    core.tick();
    assert_eq!(core.snapshot(StreamId::Microphone), vec![9]);
}

#[test]
fn switch_failure_leaves_everything_unchanged() {
    let failures = [
        DeviceError::DeviceUnavailable,
        DeviceError::ConfigurationNegotiationFailure,
        DeviceError::StreamConstructionFailure,
    ];
    for e in failures {
        let mut core = AudioCore::new(8, SourceId::Microphone);
        core.start();
        let t = core.sender_token(SourceId::Microphone);
        assert_eq!(core.switch_source(Err(e)), Err(e));
        assert_eq!(core.current_source(), SourceId::Microphone);
        assert!(core.is_playing());
        // The prior binding is still honoured after a failed swap.
        core.send_sample(t, 42);
        core.tick();
        assert_eq!(core.snapshot(StreamId::Microphone), vec![42]);
    }
}

#[test]
fn switch_target_names_the_other_source() {
    let mut core = AudioCore::new(8, SourceId::SystemOutput);
    assert_eq!(core.switch_target(), SourceId::Microphone);
    core.switch_source(Ok(())).expect("swap");
    assert_eq!(core.switch_target(), SourceId::SystemOutput);
}

#[test]
fn windows_bounded_across_many_ticks() {
    let mut core = AudioCore::new(4, SourceId::Microphone);
    let tsys = core.sender_token(SourceId::SystemOutput);
    let tmic = core.sender_token(SourceId::Microphone);
    for i in 0..20 {
        core.send_sample(tsys, i);
        core.send_sample(tmic, 100 + i);
        core.tick();
    }
    assert_eq!(core.snapshot(StreamId::SystemOutput), vec![16, 17, 18, 19]);
    assert_eq!(core.snapshot(StreamId::Microphone), vec![116, 117, 118, 119]);
    // Residual i is (100 + i) - head of the system window at that tick:
    // once the system window is full its head at tick i is i - 3.
    assert_eq!(core.snapshot(StreamId::Residual), vec![103, 103, 103, 103]);
}
