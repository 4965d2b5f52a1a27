use winit_core::control_flow::{
    ControlFlow, DeviceEvents, PollStrategy, Runner, RunnerEnum, State, WaitUntilStrategy,
};
use winit_core::event::{StartCause, WindowEvent};
use winit_core::runner::{occlusion_event_wanted, Event, ProxyOutcome, SendOutcome, Shared, WakeAction};
use winit_core::time::Instant;
use winit_core::window::WindowId;

fn at(millis: u64) -> Instant {
    Instant::from_millis(millis)
}

/// Brings a fresh loop into the idle running state, with the first cycle
/// behind it; returns the moment the first wait began.
fn started_loop() -> (Shared, Instant) {
    let mut core = Shared::new();
    assert!(core.start(false));
    let events = core.init();
    assert_eq!(events[0], Event::NewEvents(StartCause::Init));
    assert_eq!(events[1], Event::CreateSurfaces);
    assert_eq!(events[events.len() - 1], Event::AboutToWait);
    let now = at(1000);
    assert_eq!(core.finish_cycle(now), WakeAction::WaitForEvents);
    (core, now)
}

#[test]
fn init_cycle_delivers_init_then_surfaces_then_wait() {
    let (_, _) = started_loop();
}

#[test]
fn events_sent_before_start_are_dropped() {
    let mut core = Shared::new();
    assert_eq!(core.send_event(Event::Resumed), SendOutcome::Discarded);
}

#[test]
fn events_sent_while_initializing_are_queued() {
    let mut core = Shared::new();
    assert!(!core.start(true));
    assert_eq!(core.send_event(Event::Resumed), SendOutcome::Queued);
    assert!(core.start_delayed());
    let events = core.init();
    assert_eq!(
        events,
        vec![
            Event::NewEvents(StartCause::Init),
            Event::CreateSurfaces,
            Event::Resumed,
            Event::AboutToWait,
        ]
    );
}

#[test]
fn queued_events_are_delivered_in_arrival_order() {
    let (mut core, start) = started_loop();
    let first = Event::Suspended;
    let second = Event::Resumed;
    let outcome = core.send_events(vec![first.clone(), second.clone()]);
    let cause = StartCause::WaitCancelled { start, requested_resume: None };
    assert_eq!(outcome, SendOutcome::Dispatch(cause));
    let events = core.run_cycle(cause);
    assert_eq!(events, vec![Event::NewEvents(cause), first, second, Event::AboutToWait]);
}

#[test]
fn events_sent_during_dispatch_are_drained_within_the_cycle() {
    let (mut core, start) = started_loop();
    let cause = StartCause::WaitCancelled { start, requested_resume: None };
    let opening = core.begin_cycle(cause);
    assert_eq!(opening, vec![Event::NewEvents(cause)]);
    assert_eq!(core.send_event(Event::Resumed), SendOutcome::Queued);
    let drained = core.drain_events();
    assert_eq!(drained, vec![Event::Resumed]);
    // a hand-off made while handling those events is drained too
    assert_eq!(core.send_event(Event::UserWakeUp), SendOutcome::Queued);
    let drained = core.drain_events();
    assert_eq!(drained, vec![Event::UserWakeUp]);
    assert!(core.drain_events().is_empty());
    let closing = core.end_cycle();
    assert_eq!(closing, vec![Event::AboutToWait]);
    assert_eq!(core.finish_cycle(at(2000)), WakeAction::WaitForEvents);
}

#[test]
fn redraw_requests_coalesce_into_one_event() {
    let (mut core, start) = started_loop();
    let window = WindowId::from_raw(5);
    core.add_canvas(window);
    let cause = StartCause::WaitCancelled { start, requested_resume: None };
    assert_eq!(core.request_redraw(window), SendOutcome::Dispatch(cause));
    assert_eq!(core.request_redraw(window), SendOutcome::Dispatch(cause));
    assert_eq!(core.request_redraw(window), SendOutcome::Dispatch(cause));
    let events = core.run_cycle(cause);
    let redraw = Event::WindowEvent { window_id: window, event: WindowEvent::RedrawRequested };
    let delivered: Vec<&Event> = events.iter().filter(|e| **e == redraw).collect();
    assert_eq!(delivered.len(), 1);
    assert_eq!(
        events,
        vec![Event::NewEvents(cause), redraw, Event::AboutToWait]
    );
}

#[test]
fn destroyed_window_gets_no_redraw() {
    let (mut core, start) = started_loop();
    let doomed = WindowId::from_raw(5);
    let other = WindowId::from_raw(6);
    core.add_canvas(doomed);
    core.add_canvas(other);
    let cause = StartCause::WaitCancelled { start, requested_resume: None };
    assert_eq!(core.request_redraw(doomed), SendOutcome::Dispatch(cause));
    assert_eq!(core.request_redraw(other), SendOutcome::Dispatch(cause));
    core.notify_destroy_window(doomed);
    let events = core.run_cycle(cause);
    assert_eq!(
        events,
        vec![
            Event::NewEvents(cause),
            Event::WindowEvent { window_id: doomed, event: WindowEvent::Destroyed },
            Event::WindowEvent { window_id: other, event: WindowEvent::RedrawRequested },
            Event::AboutToWait,
        ]
    );
}

#[test]
fn wait_until_in_the_past_resumes_immediately_and_reports_the_deadline() {
    let (mut core, start) = started_loop();
    let cause = StartCause::WaitCancelled { start, requested_resume: None };
    assert_eq!(core.send_event(Event::Resumed), SendOutcome::Dispatch(cause));
    let _ = core.run_cycle(cause);

    // the application picks a deadline that has already passed
    let deadline = at(1500);
    core.set_control_flow(ControlFlow::WaitUntil(deadline));
    let now = at(2000);
    assert_eq!(
        core.finish_cycle(now),
        WakeAction::ScheduleWakeUp { delay_millis: 0, strategy: WaitUntilStrategy::Scheduler }
    );

    // the wake fires no earlier than the deadline
    let fired = at(2001);
    let events = core.resume_time_reached(fired);
    match events[0] {
        Event::NewEvents(StartCause::ResumeTimeReached { start, requested_resume }) => {
            assert_eq!(requested_resume, deadline);
            assert_eq!(start, fired);
            assert!(start.millis >= requested_resume.millis);
        },
        _ => panic!("a resume cycle must open with its cause"),
    }
}

#[test]
fn wait_until_in_the_future_schedules_the_remaining_delay() {
    let (mut core, start) = started_loop();
    let cause = StartCause::WaitCancelled { start, requested_resume: None };
    assert_eq!(core.send_event(Event::Resumed), SendOutcome::Dispatch(cause));
    let _ = core.run_cycle(cause);
    core.set_control_flow(ControlFlow::WaitUntil(at(5000)));
    assert_eq!(
        core.finish_cycle(at(2000)),
        WakeAction::ScheduleWakeUp { delay_millis: 3000, strategy: WaitUntilStrategy::Scheduler }
    );
}

#[test]
fn poll_loop_runs_until_exit_and_tears_down_once() {
    let mut core = Shared::new();
    assert!(core.start(false));
    let window = WindowId::from_raw(1);
    core.add_canvas(window);
    let _ = core.init();
    core.set_control_flow(ControlFlow::Poll);
    assert_eq!(core.finish_cycle(at(1000)), WakeAction::SchedulePoll(PollStrategy::Scheduler));

    // with nothing queued, every cycle is the bare pair, again and again
    for tick in 0..3u64 {
        let events = core.poll();
        assert_eq!(events, vec![Event::NewEvents(StartCause::Poll), Event::AboutToWait]);
        assert_eq!(
            core.finish_cycle(at(1001 + tick)),
            WakeAction::SchedulePoll(PollStrategy::Scheduler)
        );
    }

    // the application asks to exit during a cycle
    let events = core.poll();
    assert_eq!(events, vec![Event::NewEvents(StartCause::Poll), Event::AboutToWait]);
    core.exit();
    assert_eq!(core.finish_cycle(at(1100)), WakeAction::Exit);
    assert!(core.is_closed());

    // teardown hands back the windows to clean, exactly once
    let to_clean = core.handle_loop_destroyed();
    assert_eq!(to_clean, vec![window]);
    assert!(core.is_closed());

    // no further events are honoured and no cycle can begin
    assert_eq!(core.send_event(Event::Resumed), SendOutcome::Discarded);
    assert_eq!(core.request_redraw(window), SendOutcome::Discarded);
    assert_eq!(core.send_proxy_wake_up(true), ProxyOutcome::Discarded);
}

#[test]
fn unload_destroys_without_teardown() {
    let (mut core, _) = started_loop();
    core.handle_unload();
    assert!(core.is_closed());
    assert_eq!(core.send_event(Event::Resumed), SendOutcome::Discarded);
}

#[test]
fn device_events_follow_focus_policy() {
    let (mut core, _) = started_loop();
    // the default only delivers while some window has focus
    assert!(!core.device_events());
    let window = WindowId::from_raw(3);
    core.add_canvas(window);
    assert!(!core.device_events());
    core.note_window_focus(window, true);
    assert!(core.device_events());
    core.note_window_focus(window, false);
    assert!(!core.device_events());

    core.listen_device_events(DeviceEvents::Always);
    assert!(core.device_events());
    core.listen_device_events(DeviceEvents::Never);
    core.note_window_focus(window, true);
    assert!(!core.device_events());
}

#[test]
fn proxy_wake_up_defers_to_a_microtask_when_local_and_idle() {
    let (mut core, start) = started_loop();
    assert_eq!(core.send_proxy_wake_up(true), ProxyOutcome::Microtask);
    // the microtask then re-sends the wake-up as an ordinary event
    let cause = StartCause::WaitCancelled { start, requested_resume: None };
    assert_eq!(
        core.send_proxy_wake_up(false),
        ProxyOutcome::Sent(SendOutcome::Dispatch(cause))
    );
    let events = core.run_cycle(cause);
    assert_eq!(events, vec![Event::NewEvents(cause), Event::UserWakeUp, Event::AboutToWait]);
}

#[test]
fn occlusion_events_follow_visibility_and_intersection() {
    // hiding is reported unless the window is known to be off-screen
    assert!(occlusion_event_wanted(false, Some(true)));
    assert!(occlusion_event_wanted(false, None));
    assert!(!occlusion_event_wanted(false, Some(false)));
    // revealing is reported only for a window known to be on-screen
    assert!(occlusion_event_wanted(true, Some(true)));
    assert!(!occlusion_event_wanted(true, None));
    assert!(!occlusion_event_wanted(true, Some(false)));
}

#[test]
fn rerun_starts_over_without_carrying_windows() {
    let mut core = Shared::new();
    core.event_loop_recreation(true);
    assert!(core.start(false));
    assert_eq!(core.generate_id(), 0);
    core.add_canvas(WindowId::from_raw(9));
    let _ = core.init();
    core.exit();
    assert_eq!(core.finish_cycle(at(50)), WakeAction::Exit);
    assert_eq!(core.handle_loop_destroyed(), vec![WindowId::from_raw(9)]);

    // the same loop runs again, from its own first cycle, empty-handed
    core.reset_for_rerun();
    assert!(!core.exiting());
    assert!(core.start(false));
    let events = core.init();
    assert_eq!(
        events,
        vec![Event::NewEvents(StartCause::Init), Event::CreateSurfaces, Event::AboutToWait]
    );
    // the identifier counter carried over: identity is preserved
    assert_eq!(core.generate_id(), 1);
}

#[test]
fn start_causes_follow_the_waiting_mode() {
    let mut runner = Runner::new();
    assert!(matches!(runner.state, State::Init));
    assert_eq!(runner.maybe_start_cause(), Some(StartCause::Init));

    runner.state = State::Poll;
    assert_eq!(runner.maybe_start_cause(), Some(StartCause::Poll));

    runner.state = State::Wait { start: at(7) };
    assert_eq!(
        runner.maybe_start_cause(),
        Some(StartCause::WaitCancelled { start: at(7), requested_resume: None })
    );

    runner.state = State::WaitUntil { start: at(7), end: at(9) };
    assert_eq!(
        runner.maybe_start_cause(),
        Some(StartCause::WaitCancelled { start: at(7), requested_resume: Some(at(9)) })
    );

    runner.state = State::Exit;
    assert!(runner.state.exiting());
    assert_eq!(runner.maybe_start_cause(), None);

    assert!(RunnerEnum::Pending.maybe_runner().is_none());
    assert!(RunnerEnum::Destroyed.maybe_runner().is_none());
    assert!(RunnerEnum::Initializing(Runner::new()).maybe_runner().is_none());
    let attached = RunnerEnum::Running(Runner::new());
    assert!(matches!(attached.maybe_runner(), Some(inner) if matches!(inner.state, State::Init)));
}

#[test]
fn generated_ids_strictly_increase() {
    let mut core = Shared::new();
    assert_eq!(core.generate_id(), 0);
    assert_eq!(core.generate_id(), 1);
    assert_eq!(core.generate_id(), 2);
}

#[test]
fn control_flow_and_strategies_are_retained() {
    let mut core = Shared::new();
    assert_eq!(core.control_flow(), ControlFlow::Wait);
    core.set_control_flow(ControlFlow::Poll);
    assert_eq!(core.control_flow(), ControlFlow::Poll);
    core.set_poll_strategy(PollStrategy::IdleCallback);
    assert_eq!(core.poll_strategy(), PollStrategy::IdleCallback);
    core.set_wait_until_strategy(WaitUntilStrategy::Worker);
    assert_eq!(core.wait_until_strategy(), WaitUntilStrategy::Worker);
    assert!(!core.exiting());
    core.exit();
    assert!(core.exiting());
}
