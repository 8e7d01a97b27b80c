use yt_spout_syphon_bridge::pump::{
    drive, Dims, Phase, Pump, PumpAction, PumpEvent, FAILURE_THRESHOLD, MAX_POLL_ATTEMPTS,
};

fn fallback() -> Dims {
    Dims { width: 1280, height: 720 }
}

fn started_pump() -> Pump {
    let mut p = Pump::new(fallback());
    let a = p.step(PumpEvent::Start);
    assert_eq!(a, PumpAction::Wait);
    assert_eq!(p.phase, Phase::Negotiating);
    p
}

fn running_pump() -> Pump {
    let mut p = started_pump();
    let a = p.step(PumpEvent::Poll { stop: false, reconfig: true, width: 1920, height: 1080 });
    assert_eq!(a, PumpAction::CreateSurfaces(Dims { width: 1920, height: 1080 }));
    assert_eq!(p.phase, Phase::Running);
    p
}

#[test]
fn threshold_abort_after_exact_count() {
    let mut p = running_pump();
    for k in 1..FAILURE_THRESHOLD {
        let a = p.step(PumpEvent::Tick { stop: false, render_ok: false });
        assert_eq!(a, PumpAction::RetryTick, "tick {k} must keep retrying");
        assert_eq!(p.phase, Phase::Running, "tick {k} must not abort yet");
        assert_eq!(p.failures, k);
    }
    let a = p.step(PumpEvent::Tick { stop: false, render_ok: false });
    assert_eq!(a, PumpAction::BeginShutdown);
    assert_eq!(p.phase, Phase::Draining);
    // Not indefinitely after: once draining, further failing ticks change nothing.
    let a = p.step(PumpEvent::Tick { stop: false, render_ok: false });
    assert_eq!(a, PumpAction::Wait);
    assert_eq!(p.phase, Phase::Draining);
}

#[test]
fn transient_failure_then_success_resets_counter() {
    let mut p = running_pump();
    let a = p.step(PumpEvent::Tick { stop: false, render_ok: false });
    assert_eq!(a, PumpAction::RetryTick);
    assert_eq!(p.failures, 1);
    let a = p.step(PumpEvent::Tick { stop: false, render_ok: true });
    assert_eq!(a, PumpAction::PublishFrame);
    assert_eq!(p.failures, 0);
    assert_eq!(p.phase, Phase::Running);
}

#[test]
fn resolution_fallback_on_timeout() {
    let mut p = started_pump();
    for k in 1..MAX_POLL_ATTEMPTS {
        let a = p.step(PumpEvent::Poll { stop: false, reconfig: false, width: 0, height: 0 });
        assert_eq!(a, PumpAction::Wait);
        assert_eq!(p.phase, Phase::Negotiating, "poll {k} is still within the window");
        assert_eq!(p.attempts, k);
    }
    let a = p.step(PumpEvent::Poll { stop: false, reconfig: false, width: 0, height: 0 });
    assert_eq!(a, PumpAction::CreateSurfaces(fallback()));
    assert_eq!(p.phase, Phase::Running);
    assert_eq!(p.negotiated, Some(fallback()));
}

#[test]
fn session_with_no_resolution_event_reaches_running() {
    // A session started on "test://720p" with a requested 1280x720 and no
    // reconfiguration event ever firing settles on exactly the requested
    // size and is Running, not Draining, one step past the window.
    let mut core = yt_spout_syphon_bridge::session::PlayerCore::new();
    core.on_play("test://720p".to_string());
    let mut p = Pump::new(Dims { width: 1280, height: 720 });
    p.step(PumpEvent::Start);
    for _ in 0..MAX_POLL_ATTEMPTS {
        p.step(PumpEvent::Poll { stop: false, reconfig: false, width: 0, height: 0 });
    }
    assert_eq!(p.phase, Phase::Running);
    assert_ne!(p.phase, Phase::Draining);
    assert_eq!(p.negotiated, Some(Dims { width: 1280, height: 720 }));
    core.on_playing();
    let r = core.status_response();
    assert_eq!(r.status, "playing");
}

#[test]
fn stop_during_negotiation_terminates_without_deadlock() {
    let mut p = started_pump();
    // A couple of quiet polls first, as if stop arrived before negotiation
    // completed.
    p.step(PumpEvent::Poll { stop: false, reconfig: false, width: 0, height: 0 });
    let a = p.step(PumpEvent::Poll { stop: true, reconfig: false, width: 0, height: 0 });
    assert_eq!(a, PumpAction::BeginShutdown);
    assert_eq!(p.phase, Phase::Draining);
    let a = p.step(PumpEvent::DrainComplete);
    assert_eq!(a, PumpAction::Wait);
    assert_eq!(p.phase, Phase::Terminated);
}

#[test]
fn dimensions_need_a_reconfig_event_first() {
    let mut p = started_pump();
    // Positive properties alone do not settle negotiation before any
    // reconfiguration event has been seen.
    let a = p.step(PumpEvent::Poll { stop: false, reconfig: false, width: 640, height: 480 });
    assert_eq!(a, PumpAction::Wait);
    assert_eq!(p.phase, Phase::Negotiating);
    // Once the event has been seen, a later poll with usable properties
    // settles it.
    let a = p.step(PumpEvent::Poll { stop: false, reconfig: true, width: 0, height: 0 });
    assert_eq!(a, PumpAction::Wait);
    let a = p.step(PumpEvent::Poll { stop: false, reconfig: false, width: 640, height: 480 });
    assert_eq!(a, PumpAction::CreateSurfaces(Dims { width: 640, height: 480 }));
    assert_eq!(p.negotiated, Some(Dims { width: 640, height: 480 }));
}

#[test]
fn out_of_range_dimensions_are_not_trusted() {
    let mut p = started_pump();
    let a = p.step(PumpEvent::Poll { stop: false, reconfig: true, width: -1, height: 720 });
    assert_eq!(a, PumpAction::Wait);
    assert_eq!(p.phase, Phase::Negotiating);
    let a = p.step(PumpEvent::Poll {
        stop: false,
        reconfig: false,
        width: (u32::MAX as i64) + 1,
        height: 720,
    });
    assert_eq!(a, PumpAction::Wait);
    assert_eq!(p.phase, Phase::Negotiating);
}

#[test]
fn drive_runs_a_whole_session_script() {
    let mut p = Pump::new(fallback());
    let events = vec![
        PumpEvent::Start,
        PumpEvent::Poll { stop: false, reconfig: false, width: 0, height: 0 },
        PumpEvent::Poll { stop: false, reconfig: true, width: 1920, height: 1080 },
        PumpEvent::Tick { stop: false, render_ok: true },
        PumpEvent::Tick { stop: false, render_ok: false },
        PumpEvent::Tick { stop: false, render_ok: true },
        PumpEvent::Tick { stop: true, render_ok: true },
        PumpEvent::DrainComplete,
    ];
    let actions = drive(&mut p, &events);
    assert_eq!(
        actions,
        vec![
            PumpAction::Wait,
            PumpAction::Wait,
            PumpAction::CreateSurfaces(Dims { width: 1920, height: 1080 }),
            PumpAction::PublishFrame,
            PumpAction::RetryTick,
            PumpAction::PublishFrame,
            PumpAction::BeginShutdown,
            PumpAction::Wait,
        ]
    );
    assert_eq!(p.phase, Phase::Terminated);
}
