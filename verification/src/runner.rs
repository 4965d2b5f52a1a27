//! The event loop runner: a single-consumer dispatch engine.
//!
//! [`Shared`] owns the pending-event queue, the redraw and destroy
//! bookkeeping and the control-flow machine, and decides everything about a
//! dispatch cycle: which events are delivered, in what order, and what wake
//! to schedule next. Backends feed events in through the `send` functions
//! and perform the returned actions; they never reorder or filter anything
//! themselves.
//!
//! A cycle runs `NewEvents` first (with `CreateSurfaces` once, on the very
//! first cycle), then the queued events in arrival order, then the pending
//! window destructions oldest first, then one coalesced `RedrawRequested`
//! per surviving window with a pending redraw, and `AboutToWait` last.

use vstd::prelude::*;

use crate::control_flow::{
    ControlFlow, DeviceEvents, PollStrategy, Runner, RunnerEnum, start_cause_of, State,
    WaitUntilStrategy,
};
use crate::event::{DeviceEvent, DeviceId, StartCause, WindowEvent};
use crate::time::Instant;
use crate::window::WindowId;

verus! {

/// The envelope in which the runner queues and delivers events.
#[derive(Debug, Clone, PartialEq)]
pub enum Event {
    /// A cycle begins, with the reason it does.
    NewEvents(StartCause),
    /// An event scoped to one window.
    WindowEvent { window_id: WindowId, event: WindowEvent },
    /// A raw device event.
    DeviceEvent { device_id: Option<DeviceId>, event: DeviceEvent },
    /// The page or application is being suspended.
    Suspended,
    /// The application may create its surfaces; sent once, after the first
    /// `NewEvents`.
    CreateSurfaces,
    /// The page or application was resumed.
    Resumed,
    /// The cycle is over; the application is consulted for its control
    /// flow afterwards.
    AboutToWait,
    /// A cross-thread proxy asked the application to wake up.
    UserWakeUp,
}

/// One window known to the runner: the routing entry, never ownership.
#[derive(Debug, Clone, Copy, PartialEq, Eq, Structural)]
pub struct WindowEntry {
    /// The window's identifier.
    pub id: WindowId,
    /// Whether the window currently has focus.
    pub has_focus: bool,
}

/// Where the runner stands within a dispatch cycle.
#[derive(Debug, Clone, Copy, PartialEq, Eq, Structural)]
pub enum CyclePhase {
    /// No cycle is running.
    Idle,
    /// A cycle is running: queued events are being delivered.
    Dispatching,
    /// The cycle's events are all delivered; the control flow is to be
    /// applied next.
    AwaitingFlow,
}

/// The mathematical state of the runner.
#[verifier::ext_equal]
pub struct LoopModel {
    /// The loop lifecycle around the control-flow machine.
    pub runner: RunnerEnum,
    /// The control flow the application last set.
    pub control_flow: ControlFlow,
    /// How immediate wakes are scheduled.
    pub poll_strategy: PollStrategy,
    /// How deadline wakes are scheduled.
    pub wait_until_strategy: WaitUntilStrategy,
    /// Whether the application has asked the loop to exit.
    pub exit: bool,
    /// Whether the page or application is suspended.
    pub suspended: bool,
    /// Whether the loop may be created again after destruction.
    pub event_loop_recreation: bool,
    /// The next window identifier to hand out.
    pub next_id: usize,
    /// The queued events, in arrival order.
    pub events: Seq<Event>,
    /// The windows known for routing, in registration order.
    pub windows: Seq<WindowEntry>,
    /// The windows with a pending redraw, each at most once, in request
    /// order.
    pub redraw_pending: Seq<WindowId>,
    /// The windows whose destruction is pending, oldest first.
    pub destroy_pending: Seq<WindowId>,
    /// Which device events the application wants.
    pub device_events: DeviceEvents,
    /// Where the runner stands within a cycle.
    pub phase: CyclePhase,
}

/// An event that a producer may feed into the queue. The runner alone
/// emits the cycle markers, the destruction notices and the coalesced
/// redraws, so none of those may be queued.
pub open spec fn is_producer_event(event: Event) -> bool {
    match event {
        Event::NewEvents(_) => false,
        Event::CreateSurfaces => false,
        Event::AboutToWait => false,
        Event::WindowEvent { event: inner, .. } => !(inner is RedrawRequested) && !(
        inner is Destroyed),
        _ => true,
    }
}

/// The runner's invariant: the redraw set holds each window at most once,
/// and the queue holds producer events alone.
pub open spec fn wf(m: LoopModel) -> bool {
    &&& forall|i: int, j: int|
        0 <= i < j < m.redraw_pending.len() ==> m.redraw_pending[i] != m.redraw_pending[j]
    &&& forall|i: int| 0 <= i < m.events.len() ==> is_producer_event(#[trigger] m.events[i])
}

/// The loop's waiting mode while it runs, and none otherwise.
pub open spec fn running_state(m: LoopModel) -> Option<State> {
    match m.runner {
        RunnerEnum::Running(runner) => Some(runner.state),
        _ => None,
    }
}

/// Whether the loop is closed: exited while running, or destroyed.
pub open spec fn spec_closed(m: LoopModel) -> bool {
    match m.runner {
        RunnerEnum::Running(runner) => runner.state is Exit,
        RunnerEnum::Destroyed => true,
        _ => false,
    }
}

/// Whether a cycle may begin with this cause: each waiting mode has its
/// cause, and a deadline wake carries the deadline with a fire time no
/// earlier than it.
pub open spec fn cause_matches(state: State, cause: StartCause) -> bool {
    match state {
        State::WaitUntil { start, end } => cause == StartCause::WaitCancelled {
            start,
            requested_resume: Some(end),
        } || (cause matches StartCause::ResumeTimeReached { start: fired, requested_resume }
            && requested_resume == end && fired.millis >= end.millis),
        _ => start_cause_of(state) == Some(cause),
    }
}

/// The destruction notice for a window.
pub open spec fn destroyed_event(id: WindowId) -> Event {
    Event::WindowEvent { window_id: id, event: WindowEvent::Destroyed }
}

/// The coalesced redraw notice for a window.
pub open spec fn redraw_event(id: WindowId) -> Event {
    Event::WindowEvent { window_id: id, event: WindowEvent::RedrawRequested }
}

/// The predicate holding of windows that are not among the destroyed.
pub open spec fn not_destroyed(destroys: Seq<WindowId>) -> spec_fn(WindowId) -> bool {
    |id: WindowId| !destroys.contains(id)
}

/// The pending redraws that survive the cycle's destructions: a destroyed
/// window gets no redraw.
pub open spec fn surviving_redraws(m: LoopModel) -> Seq<WindowId> {
    m.redraw_pending.filter(not_destroyed(m.destroy_pending))
}

/// The events a cycle opens with: the cause, and the one-off surface
/// invitation on the very first cycle.
pub open spec fn begin_events(m: LoopModel, cause: StartCause) -> Seq<Event> {
    if running_state(m) == Some(State::Init) {
        seq![Event::NewEvents(cause), Event::CreateSurfaces]
    } else {
        seq![Event::NewEvents(cause)]
    }
}

/// The events a cycle closes with: destructions oldest first, then one
/// redraw per surviving window with one pending, then `AboutToWait`.
pub open spec fn end_events(m: LoopModel) -> Seq<Event> {
    m.destroy_pending.map_values(|id: WindowId| destroyed_event(id)) + surviving_redraws(
        m,
    ).map_values(|id: WindowId| redraw_event(id)) + seq![Event::AboutToWait]
}

/// Every event one cycle delivers, in delivery order.
pub open spec fn cycle_events(m: LoopModel, cause: StartCause) -> Seq<Event> {
    begin_events(m, cause) + m.events + end_events(m)
}

/// The routing entries that survive the cycle's destructions.
pub open spec fn surviving_windows(m: LoopModel) -> Seq<WindowEntry> {
    m.windows.filter(|w: WindowEntry| !m.destroy_pending.contains(w.id))
}

/// What becomes of events handed to the loop in a given state: discarded
/// when closed or not yet started, queued while initializing or while a
/// cycle is being dispatched, and dispatched at once when the loop runs
/// idle — with the cause its waiting mode dictates.
pub open spec fn send_disposition(m: LoopModel) -> SendOutcome {
    match m.runner {
        RunnerEnum::Pending => SendOutcome::Discarded,
        RunnerEnum::Destroyed => SendOutcome::Discarded,
        RunnerEnum::Initializing(_) => SendOutcome::Queued,
        RunnerEnum::Running(runner) => match start_cause_of(runner.state) {
            None => SendOutcome::Discarded,
            Some(cause) => if m.phase is Idle {
                SendOutcome::Dispatch(cause)
            } else {
                SendOutcome::Queued
            },
        },
    }
}

/// The model after events were handed to the loop: unchanged where they
/// are discarded, the queue extended where not.
pub open spec fn sent_model(m: LoopModel, events: Seq<Event>) -> LoopModel {
    if send_disposition(m) is Discarded {
        m
    } else {
        LoopModel { events: m.events + events, ..m }
    }
}

/// The model once a cycle has delivered everything: the queues are empty,
/// the destroyed windows are forgotten, and the control flow is awaited.
pub open spec fn drained_model(m: LoopModel) -> LoopModel {
    LoopModel {
        phase: CyclePhase::AwaitingFlow,
        events: Seq::empty(),
        windows: surviving_windows(m),
        redraw_pending: Seq::empty(),
        destroy_pending: Seq::empty(),
        ..m
    }
}

/// The waiting mode the loop enters when a cycle's control flow is
/// applied at the given moment: the terminal mode when an exit was asked
/// for, else the mode the application's choice dictates.
pub open spec fn applied_state(m: LoopModel, now: Instant) -> State {
    if m.exit {
        State::Exit
    } else {
        match m.control_flow {
            ControlFlow::Poll => State::Poll,
            ControlFlow::Wait => State::Wait { start: now },
            ControlFlow::WaitUntil(end) => State::WaitUntil { start: now, end },
        }
    }
}

/// The delay until a deadline, never negative.
pub open spec fn delay_until(now: Instant, end: Instant) -> u64 {
    if end.millis > now.millis {
        (end.millis - now.millis) as u64
    } else {
        0
    }
}

/// The scheduling action a cycle ends with: teardown on exit, an
/// immediate wake for polling, none for waiting, and a wake after the
/// remaining delay for a timed wait — zero delay when the deadline has
/// already passed.
pub open spec fn wake_action_of(m: LoopModel, now: Instant) -> WakeAction {
    if m.exit {
        WakeAction::Exit
    } else {
        match m.control_flow {
            ControlFlow::Poll => WakeAction::SchedulePoll(m.poll_strategy),
            ControlFlow::Wait => WakeAction::WaitForEvents,
            ControlFlow::WaitUntil(end) => WakeAction::ScheduleWakeUp {
                delay_millis: delay_until(now, end),
                strategy: m.wait_until_strategy,
            },
        }
    }
}

/// What a producer's hand-off came to.
#[derive(Debug, Clone, Copy, PartialEq, Eq, Structural)]
pub enum SendOutcome {
    /// The loop is closed; the events were discarded.
    Discarded,
    /// The events were queued; a later cycle will deliver them.
    Queued,
    /// The events were queued and the loop was idle: the caller must now
    /// run a dispatch cycle with this cause.
    Dispatch(StartCause),
}

/// What a proxy wake-up came to.
#[derive(Debug, Clone, Copy, PartialEq, Eq, Structural)]
pub enum ProxyOutcome {
    /// The loop is closed; the wake-up was discarded.
    Discarded,
    /// The wake-up must be re-sent from a microtask, to let the current
    /// platform callback return first.
    Microtask,
    /// The wake-up event was handed to the queue with this outcome.
    Sent(SendOutcome),
}

/// What the backend must do after a cycle, carrying out the control flow
/// the application chose.
#[derive(Debug, Clone, Copy, PartialEq, Eq, Structural)]
pub enum WakeAction {
    /// Schedule an immediate wake; on firing, run a `Poll` cycle. Any
    /// previously scheduled wake is dropped first.
    SchedulePoll(PollStrategy),
    /// Wait for platform events; no wake stands scheduled.
    WaitForEvents,
    /// Schedule a wake after the delay; on firing at or past the deadline,
    /// report the resume time as reached. Any previously scheduled wake is
    /// dropped first.
    ScheduleWakeUp { delay_millis: u64, strategy: WaitUntilStrategy },
    /// The loop is exiting: tear it down once, via
    /// [`Shared::handle_loop_destroyed`].
    Exit,
}

/// The event loop runner's shared state.
pub struct Shared {
    runner: RunnerEnum,
    control_flow: ControlFlow,
    poll_strategy: PollStrategy,
    wait_until_strategy: WaitUntilStrategy,
    exit: bool,
    suspended: bool,
    event_loop_recreation: bool,
    next_id: usize,
    events: Vec<Event>,
    windows: Vec<WindowEntry>,
    redraw_pending: Vec<WindowId>,
    destroy_pending: Vec<WindowId>,
    device_events: DeviceEvents,
    phase: CyclePhase,
}

impl View for Shared {
    type V = LoopModel;

    closed spec fn view(&self) -> LoopModel {
        LoopModel {
            runner: self.runner,
            control_flow: self.control_flow,
            poll_strategy: self.poll_strategy,
            wait_until_strategy: self.wait_until_strategy,
            exit: self.exit,
            suspended: self.suspended,
            event_loop_recreation: self.event_loop_recreation,
            next_id: self.next_id,
            events: self.events@,
            windows: self.windows@,
            redraw_pending: self.redraw_pending@,
            destroy_pending: self.destroy_pending@,
            device_events: self.device_events,
            phase: self.phase,
        }
    }
}

impl Shared {
    /// A fresh loop: not yet running, set to wait, with nothing pending.
    pub fn new() -> (r: Self)
        ensures
            r@.runner is Pending,
            r@.control_flow is Wait,
            r@.poll_strategy is Scheduler,
            r@.wait_until_strategy is Scheduler,
            !r@.exit,
            !r@.suspended,
            !r@.event_loop_recreation,
            r@.next_id == 0,
            r@.events == Seq::<Event>::empty(),
            r@.windows == Seq::<WindowEntry>::empty(),
            r@.redraw_pending == Seq::<WindowId>::empty(),
            r@.destroy_pending == Seq::<WindowId>::empty(),
            r@.device_events is WhenFocused,
            r@.phase is Idle,
            wf(r@),
    {
        Shared {
            runner: RunnerEnum::Pending,
            control_flow: ControlFlow::Wait,
            poll_strategy: PollStrategy::Scheduler,
            wait_until_strategy: WaitUntilStrategy::Scheduler,
            exit: false,
            suspended: false,
            event_loop_recreation: false,
            next_id: 0,
            events: Vec::new(),
            windows: Vec::new(),
            redraw_pending: Vec::new(),
            destroy_pending: Vec::new(),
            device_events: DeviceEvents::WhenFocused,
            phase: CyclePhase::Idle,
        }
    }

    /// The control flow the application last set.
    pub fn control_flow(&self) -> (r: ControlFlow)
        ensures
            r == self@.control_flow,
    {
        self.control_flow
    }

    /// Set the control flow to apply after the current or next cycle.
    pub fn set_control_flow(&mut self, control_flow: ControlFlow)
        ensures
            final(self)@ == (LoopModel { control_flow, ..old(self)@ }),
    {
        self.control_flow = control_flow;
    }

    /// Ask the loop to exit once the current cycle completes.
    pub fn exit(&mut self)
        ensures
            final(self)@ == (LoopModel { exit: true, ..old(self)@ }),
    {
        self.exit = true;
    }

    /// Whether an exit has been requested.
    pub fn exiting(&self) -> (r: bool)
        ensures
            r == self@.exit,
    {
        self.exit
    }

    /// Choose how immediate wakes are scheduled.
    pub fn set_poll_strategy(&mut self, strategy: PollStrategy)
        ensures
            final(self)@ == (LoopModel { poll_strategy: strategy, ..old(self)@ }),
    {
        self.poll_strategy = strategy;
    }

    /// How immediate wakes are scheduled.
    pub fn poll_strategy(&self) -> (r: PollStrategy)
        ensures
            r == self@.poll_strategy,
    {
        self.poll_strategy
    }

    /// Choose how deadline wakes are scheduled.
    pub fn set_wait_until_strategy(&mut self, strategy: WaitUntilStrategy)
        ensures
            final(self)@ == (LoopModel { wait_until_strategy: strategy, ..old(self)@ }),
    {
        self.wait_until_strategy = strategy;
    }

    /// How deadline wakes are scheduled.
    pub fn wait_until_strategy(&self) -> (r: WaitUntilStrategy)
        ensures
            r == self@.wait_until_strategy,
    {
        self.wait_until_strategy
    }

    /// Choose which device events the application wants delivered.
    pub fn listen_device_events(&mut self, allowed: DeviceEvents)
        ensures
            final(self)@ == (LoopModel { device_events: allowed, ..old(self)@ }),
    {
        self.device_events = allowed;
    }

    /// Allow or disallow creating the loop again after destruction.
    pub fn event_loop_recreation(&mut self, allow: bool)
        ensures
            final(self)@ == (LoopModel { event_loop_recreation: allow, ..old(self)@ }),
    {
        self.event_loop_recreation = allow;
    }

    /// Whether the loop may be created again after destruction.
    pub fn recreation_allowed(&self) -> (r: bool)
        ensures
            r == self@.event_loop_recreation,
    {
        self.event_loop_recreation
    }

    /// Note that the page or application was suspended or resumed.
    pub fn set_suspended(&mut self, suspended: bool)
        ensures
            final(self)@ == (LoopModel { suspended, ..old(self)@ }),
    {
        self.suspended = suspended;
    }

    /// Whether the page or application is suspended.
    pub fn suspended(&self) -> (r: bool)
        ensures
            r == self@.suspended,
    {
        self.suspended
    }

    /// Generate a strictly increasing window identifier.
    ///
    /// Exhausting the identifier space would alias windows, so the backend
    /// must treat it as fatal before calling.
    pub fn generate_id(&mut self) -> (r: usize)
        requires
            old(self)@.next_id < usize::MAX,
        ensures
            r == old(self)@.next_id,
            final(self)@ == (LoopModel { next_id: (old(self)@.next_id + 1) as usize, ..old(self)@ }),
    {
        let id = self.next_id;
        self.next_id = self.next_id + 1;
        id
    }

    /// Register a window for routing; it starts unfocused.
    pub fn add_canvas(&mut self, id: WindowId)
        ensures
            final(self)@ == (LoopModel {
                windows: old(self)@.windows.push(WindowEntry { id, has_focus: false }),
                ..old(self)@
            }),
    {
        self.windows.push(WindowEntry { id, has_focus: false });
    }

    /// Record whether a window has focus.
    pub fn note_window_focus(&mut self, id: WindowId, has_focus: bool)
        ensures
            final(self)@.windows.len() == old(self)@.windows.len(),
            forall|i: int|
                0 <= i < old(self)@.windows.len() ==> final(self)@.windows[i] == (if old(
                    self,
                )@.windows[i].id == id {
                    WindowEntry { has_focus, ..old(self)@.windows[i] }
                } else {
                    old(self)@.windows[i]
                }),
            final(self)@ == (LoopModel { windows: final(self)@.windows, ..old(self)@ }),
    {
        let mut idx: usize = 0;
        while idx < self.windows.len()
            invariant
                idx <= self.windows@.len(),
                self.windows@.len() == old(self)@.windows.len(),
                forall|i: int|
                    0 <= i < idx ==> self.windows@[i] == (if old(self)@.windows[i].id == id {
                        WindowEntry { has_focus, ..old(self)@.windows[i] }
                    } else {
                        old(self)@.windows[i]
                    }),
                forall|i: int| idx <= i < self.windows@.len() ==> self.windows@[i] == old(
                    self,
                )@.windows[i],
                self@ == (LoopModel { windows: self@.windows, ..old(self)@ }),
            decreases self.windows@.len() - idx,
        {
            if self.windows[idx].id == id {
                let entry = WindowEntry { id: self.windows[idx].id, has_focus };
                self.windows.set(idx, entry);
            }
            idx = idx + 1;
        }
    }

    /// Queue a window's destruction; it is applied at the well-defined
    /// point of the next cycle, after the queued events and before the
    /// redraws.
    pub fn notify_destroy_window(&mut self, id: WindowId)
        ensures
            final(self)@ == (LoopModel {
                destroy_pending: old(self)@.destroy_pending.push(id),
                ..old(self)@
            }),
    {
        self.destroy_pending.push(id);
    }

    /// Whether device events are currently wanted: always, never, or only
    /// while some window has focus.
    pub fn device_events(&self) -> (r: bool)
        ensures
            r == match self@.device_events {
                DeviceEvents::Always => true,
                DeviceEvents::WhenFocused => exists|i: int|
                    0 <= i < self@.windows.len() && self@.windows[i].has_focus,
                DeviceEvents::Never => false,
            },
    {
        match self.device_events {
            DeviceEvents::Always => true,
            DeviceEvents::WhenFocused => {
                let mut idx: usize = 0;
                let mut found: bool = false;
                while idx < self.windows.len()
                    invariant
                        idx <= self.windows@.len(),
                        found == exists|i: int|
                            0 <= i < idx && self.windows@[i].has_focus,
                    decreases self.windows@.len() - idx,
                {
                    if self.windows[idx].has_focus {
                        found = true;
                    }
                    idx = idx + 1;
                }
                proof {
                    if found {
                        let w = choose|i: int| 0 <= i < idx && self.windows@[i].has_focus;
                        assert(0 <= w < self@.windows.len() && self@.windows[w].has_focus);
                    }
                }
                found
            },
            DeviceEvents::Never => false,
        }
    }

    /// Whether the loop is closed: exited while running, or destroyed.
    pub fn is_closed(&self) -> (r: bool)
        ensures
            r == spec_closed(self@),
    {
        match &self.runner {
            RunnerEnum::Running(runner) => runner.state.exiting(),
            RunnerEnum::Pending => false,
            RunnerEnum::Destroyed => true,
            RunnerEnum::Initializing(_) => false,
        }
    }

    /// Hand a batch of events to the loop, in order.
    ///
    /// Closed or not-yet-started loops discard them; an initializing loop
    /// and a loop busy dispatching queue them; an idle running loop queues
    /// them and tells the caller to run a cycle now, with the cause its
    /// waiting mode dictates.
    pub fn send_events(&mut self, events: Vec<Event>) -> (r: SendOutcome)
        requires
            forall|i: int| 0 <= i < events@.len() ==> is_producer_event(#[trigger] events@[i]),
        ensures
            r == send_disposition(old(self)@),
            final(self)@ == sent_model(old(self)@, events@),
            wf(old(self)@) ==> wf(final(self)@),
    {
        if self.is_closed() {
            return SendOutcome::Discarded;
        }
        if matches!(self.runner, RunnerEnum::Pending) {
            return SendOutcome::Discarded;
        }
        let mut incoming = events;
        self.events.append(&mut incoming);
        match &self.runner {
            RunnerEnum::Initializing(_) => SendOutcome::Queued,
            RunnerEnum::Running(runner) => match runner.maybe_start_cause() {
                Some(cause) => if matches!(self.phase, CyclePhase::Idle) {
                    SendOutcome::Dispatch(cause)
                } else {
                    SendOutcome::Queued
                },
                None => SendOutcome::Queued,
            },
            RunnerEnum::Pending => SendOutcome::Queued,
            RunnerEnum::Destroyed => SendOutcome::Queued,
        }
    }

    /// Hand one event to the loop; see [`Shared::send_events`].
    pub fn send_event(&mut self, event: Event) -> (r: SendOutcome)
        requires
            is_producer_event(event),
        ensures
            r == send_disposition(old(self)@),
            final(self)@ == sent_model(old(self)@, seq![event]),
            wf(old(self)@) ==> wf(final(self)@),
    {
        let mut events: Vec<Event> = Vec::new();
        events.push(event);
        proof {
            assert(events@ =~= seq![event]);
        }
        self.send_events(events)
    }

    /// Note a window's wish to be redrawn and wake the loop for it.
    ///
    /// The wish is coalesced: a window already waiting for a redraw is not
    /// entered again, and one `RedrawRequested` will be delivered for it
    /// in the next cycle it survives.
    pub fn request_redraw(&mut self, id: WindowId) -> (r: SendOutcome)
        ensures
            r == send_disposition(old(self)@),
            final(self)@ == (LoopModel {
                redraw_pending: if old(self)@.redraw_pending.contains(id) {
                    old(self)@.redraw_pending
                } else {
                    old(self)@.redraw_pending.push(id)
                },
                ..old(self)@
            }),
            wf(old(self)@) ==> wf(final(self)@),
    {
        let already = window_list_contains(&self.redraw_pending, id);
        if !already {
            self.redraw_pending.push(id);
        }
        let ghost mid = self@;
        let outcome = self.send_events(Vec::new());
        proof {
            assert(self@.events =~= mid.events);
            assert(self@ =~= (LoopModel {
                redraw_pending: if old(self)@.redraw_pending.contains(id) {
                    old(self)@.redraw_pending
                } else {
                    old(self)@.redraw_pending.push(id)
                },
                ..old(self)@
            }));
        }
        outcome
    }

    /// A cross-thread proxy asks the application to wake up.
    ///
    /// A closed loop discards the wake-up. A wake-up raised locally while
    /// the loop runs idle must be re-sent from a microtask, so the current
    /// platform callback returns first; any other wake-up goes into the
    /// queue as a `UserWakeUp` event.
    pub fn send_proxy_wake_up(&mut self, local: bool) -> (r: ProxyOutcome)
        ensures
            ({
                let m = old(self)@;
                if spec_closed(m) {
                    r == ProxyOutcome::Discarded && final(self)@ == m
                } else if local && (m.runner is Running) && (m.phase is Idle) {
                    r == ProxyOutcome::Microtask && final(self)@ == m
                } else {
                    r == ProxyOutcome::Sent(send_disposition(m)) && final(self)@ == sent_model(
                        m,
                        seq![Event::UserWakeUp],
                    )
                }
            }),
            wf(old(self)@) ==> wf(final(self)@),
    {
        if self.is_closed() {
            return ProxyOutcome::Discarded;
        }
        if local && matches!(self.runner, RunnerEnum::Running(_)) && matches!(
            self.phase,
            CyclePhase::Idle,
        ) {
            return ProxyOutcome::Microtask;
        }
        let mut events: Vec<Event> = Vec::new();
        events.push(Event::UserWakeUp);
        proof {
            assert(events@ =~= seq![Event::UserWakeUp]);
        }
        ProxyOutcome::Sent(self.send_events(events))
    }

    /// Attach the application and begin running, unless the monitor
    /// enumeration still has an asynchronous step to finish — then the
    /// loop waits in the initializing state and is started by
    /// [`Shared::start_delayed`]. Returns whether the loop now runs, in
    /// which case the caller runs the first cycle via [`Shared::init`].
    pub fn start(&mut self, monitor_initializing: bool) -> (started: bool)
        requires
            old(self)@.runner is Pending,
        ensures
            if monitor_initializing {
                !started && final(self)@ == (LoopModel {
                    runner: RunnerEnum::Initializing(Runner { state: State::Init }),
                    ..old(self)@
                })
            } else {
                started && final(self)@ == (LoopModel {
                    runner: RunnerEnum::Running(Runner { state: State::Init }),
                    ..old(self)@
                })
            },
    {
        if monitor_initializing {
            self.runner = RunnerEnum::Initializing(Runner::new());
            false
        } else {
            self.runner = RunnerEnum::Running(Runner::new());
            true
        }
    }

    /// Begin running once the delayed initialization is over. Does
    /// nothing when the loop was never started; returns whether the loop
    /// now runs, in which case the caller runs the first cycle via
    /// [`Shared::init`].
    pub fn start_delayed(&mut self) -> (started: bool)
        requires
            !(old(self)@.runner is Running),
            !(old(self)@.runner is Destroyed),
        ensures
            match old(self)@.runner {
                RunnerEnum::Initializing(runner) => started && final(self)@ == (LoopModel {
                    runner: RunnerEnum::Running(runner),
                    ..old(self)@
                }),
                RunnerEnum::Pending => !started && final(self)@ == old(self)@,
                _ => true,
            },
    {
        match self.runner {
            RunnerEnum::Initializing(runner) => {
                self.runner = RunnerEnum::Running(runner);
                true
            },
            _ => false,
        }
    }

    /// The page is going away for good: exit and drop straight to the
    /// destroyed state. The application handler is dropped by the caller;
    /// per-window teardown is skipped, since the platform reclaims it all.
    pub fn handle_unload(&mut self)
        ensures
            final(self)@ == (LoopModel {
                exit: true,
                runner: RunnerEnum::Destroyed,
                phase: CyclePhase::Idle,
                ..old(self)@
            }),
    {
        self.exit = true;
        self.phase = CyclePhase::Idle;
        self.runner = RunnerEnum::Destroyed;
    }

    /// Open a dispatch cycle: the caller delivers the returned events
    /// (the cause, and on the very first cycle the surface invitation),
    /// then drains the queue with [`Shared::drain_events`] until it stays
    /// empty, then closes the cycle with [`Shared::end_cycle`].
    pub fn begin_cycle(&mut self, cause: StartCause) -> (r: Vec<Event>)
        requires
            old(self)@.phase is Idle,
            (old(self)@.runner matches RunnerEnum::Running(runner) && cause_matches(
                runner.state,
                cause,
            )),
        ensures
            r@ == begin_events(old(self)@, cause),
            final(self)@ == (LoopModel { phase: CyclePhase::Dispatching, ..old(self)@ }),
    {
        self.phase = CyclePhase::Dispatching;
        let mut out: Vec<Event> = Vec::new();
        out.push(Event::NewEvents(cause));
        let first = match &self.runner {
            RunnerEnum::Running(runner) => matches!(runner.state, State::Init),
            _ => false,
        };
        if first {
            out.push(Event::CreateSurfaces);
        }
        proof {
            assert(out@ =~= begin_events(old(self)@, cause));
        }
        out
    }

    /// Take the queued events for delivery, in arrival order. Events the
    /// application enqueues while handling them land in the queue again:
    /// the caller drains until the queue stays empty, within the same
    /// cycle.
    pub fn drain_events(&mut self) -> (r: Vec<Event>)
        requires
            old(self)@.phase is Dispatching,
        ensures
            r@ == old(self)@.events,
            final(self)@ == (LoopModel { events: Seq::empty(), ..old(self)@ }),
    {
        let mut drained: Vec<Event> = Vec::new();
        core::mem::swap(&mut drained, &mut self.events);
        drained
    }

    /// Close the cycle: the pending destructions become `Destroyed`
    /// notices, oldest first, and their windows are forgotten; each
    /// surviving window with a pending redraw gets exactly one
    /// `RedrawRequested`; `AboutToWait` comes last. The caller delivers
    /// the returned events and then applies the control flow with
    /// [`Shared::finish_cycle`].
    pub fn end_cycle(&mut self) -> (r: Vec<Event>)
        requires
            old(self)@.phase is Dispatching,
            old(self)@.events.len() == 0,
        ensures
            r@ == end_events(old(self)@),
            final(self)@ == drained_model(old(self)@),
            wf(final(self)@),
    {
        let ghost m0 = old(self)@;
        let mut out: Vec<Event> = Vec::new();

        let mut destroys: Vec<WindowId> = Vec::new();
        core::mem::swap(&mut destroys, &mut self.destroy_pending);

        let mut idx: usize = 0;
        while idx < destroys.len()
            invariant
                idx <= destroys@.len(),
                out@ == destroys@.subrange(0, idx as int).map_values(
                    |id: WindowId| destroyed_event(id),
                ),
            decreases destroys@.len() - idx,
        {
            let id = destroys[idx];
            out.push(Event::WindowEvent { window_id: id, event: WindowEvent::Destroyed });
            proof {
                assert(out@ =~= destroys@.subrange(0, idx as int + 1).map_values(
                    |id: WindowId| destroyed_event(id),
                ));
            }
            idx = idx + 1;
        }
        proof {
            assert(destroys@.subrange(0, destroys@.len() as int) =~= destroys@);
        }

        let mut kept: Vec<WindowEntry> = Vec::new();
        let mut widx: usize = 0;
        while widx < self.windows.len()
            invariant
                widx <= self.windows@.len(),
                kept@ == self.windows@.subrange(0, widx as int).filter(
                    |w: WindowEntry| !destroys@.contains(w.id),
                ),
            decreases self.windows@.len() - widx,
        {
            let entry = self.windows[widx];
            let gone = window_list_contains(&destroys, entry.id);
            if !gone {
                kept.push(entry);
            }
            proof {
                let pred = |w: WindowEntry| !destroys@.contains(w.id);
                let prefix = self.windows@.subrange(0, widx as int);
                let step = self.windows@.subrange(0, widx as int + 1);
                assert(step =~= prefix + seq![self.windows@[widx as int]]);
                Seq::<WindowEntry>::filter_distributes_over_add(
                    prefix,
                    seq![self.windows@[widx as int]],
                    pred,
                );
                reveal_with_fuel(Seq::filter, 3);
                assert(seq![self.windows@[widx as int]].filter(pred) =~= if pred(
                    self.windows@[widx as int],
                ) {
                    seq![self.windows@[widx as int]]
                } else {
                    Seq::<WindowEntry>::empty()
                });
                assert(kept@ =~= step.filter(pred));
            }
            widx = widx + 1;
        }
        proof {
            assert(self.windows@.subrange(0, self.windows@.len() as int) =~= self.windows@);
        }
        self.windows = kept;

        let mut redraws: Vec<WindowId> = Vec::new();
        core::mem::swap(&mut redraws, &mut self.redraw_pending);
        let ghost destroyed_part = out@;
        let mut ridx: usize = 0;
        while ridx < redraws.len()
            invariant
                ridx <= redraws@.len(),
                out@ == destroyed_part + redraws@.subrange(0, ridx as int).filter(
                    |id: WindowId| !destroys@.contains(id),
                ).map_values(|id: WindowId| redraw_event(id)),
            decreases redraws@.len() - ridx,
        {
            let id = redraws[ridx];
            let gone = window_list_contains(&destroys, id);
            if !gone {
                out.push(Event::WindowEvent { window_id: id, event: WindowEvent::RedrawRequested });
            }
            proof {
                let pred = |id: WindowId| !destroys@.contains(id);
                let prefix = redraws@.subrange(0, ridx as int);
                let step = redraws@.subrange(0, ridx as int + 1);
                assert(step =~= prefix + seq![redraws@[ridx as int]]);
                Seq::<WindowId>::filter_distributes_over_add(
                    prefix,
                    seq![redraws@[ridx as int]],
                    pred,
                );
                reveal_with_fuel(Seq::filter, 3);
                assert(seq![redraws@[ridx as int]].filter(pred) =~= if pred(
                    redraws@[ridx as int],
                ) {
                    seq![redraws@[ridx as int]]
                } else {
                    Seq::<WindowId>::empty()
                });
                assert(out@ =~= destroyed_part + step.filter(pred).map_values(
                    |id: WindowId| redraw_event(id),
                ));
            }
            ridx = ridx + 1;
        }
        proof {
            assert(redraws@.subrange(0, redraws@.len() as int) =~= redraws@);
        }

        out.push(Event::AboutToWait);
        self.phase = CyclePhase::AwaitingFlow;
        proof {
            assert(out@ =~= end_events(m0));
            assert(self@ =~= drained_model(m0));
        }
        out
    }

    /// Apply the control flow the application chose during the cycle, at
    /// the given moment, and say what wake to schedule — or that the loop
    /// is exiting and must be torn down.
    pub fn finish_cycle(&mut self, now: Instant) -> (r: WakeAction)
        requires
            old(self)@.phase is AwaitingFlow,
            old(self)@.runner is Running,
        ensures
            r == wake_action_of(old(self)@, now),
            final(self)@ == (LoopModel {
                runner: RunnerEnum::Running(Runner { state: applied_state(old(self)@, now) }),
                phase: CyclePhase::Idle,
                ..old(self)@
            }),
    {
        self.phase = CyclePhase::Idle;
        let new_state: State;
        let action: WakeAction;
        if self.exit {
            new_state = State::Exit;
            action = WakeAction::Exit;
        } else {
            match self.control_flow {
                ControlFlow::Poll => {
                    new_state = State::Poll;
                    action = WakeAction::SchedulePoll(self.poll_strategy);
                },
                ControlFlow::Wait => {
                    new_state = State::Wait { start: now };
                    action = WakeAction::WaitForEvents;
                },
                ControlFlow::WaitUntil(end) => {
                    let delay: u64 = now.millis_until(&end);
                    new_state = State::WaitUntil { start: now, end };
                    action = WakeAction::ScheduleWakeUp {
                        delay_millis: delay,
                        strategy: self.wait_until_strategy,
                    };
                },
            }
        }
        self.runner = RunnerEnum::Running(Runner { state: new_state });
        action
    }

    /// Run one whole dispatch cycle without interleaved hand-offs: open
    /// it, drain the queue once, and close it. The returned events are
    /// the cycle's full transcript in delivery order; events the
    /// application enqueues while handling them go to the next cycle.
    pub fn run_cycle(&mut self, cause: StartCause) -> (r: Vec<Event>)
        requires
            old(self)@.phase is Idle,
            (old(self)@.runner matches RunnerEnum::Running(runner) && cause_matches(
                runner.state,
                cause,
            )),
        ensures
            r@ == cycle_events(old(self)@, cause),
            final(self)@ == drained_model(old(self)@),
            wf(final(self)@),
    {
        let ghost m0 = old(self)@;
        let mut out = self.begin_cycle(cause);
        let mut queued = self.drain_events();
        let ghost mid = self@;
        let mut tail = self.end_cycle();
        out.append(&mut queued);
        out.append(&mut tail);
        proof {
            assert(end_events(mid) =~= end_events(m0));
            assert(drained_model(mid) =~= drained_model(m0));
            assert(out@ =~= cycle_events(m0, cause));
        }
        out
    }

    /// Run the first cycle, carrying `Init` and the surface invitation.
    pub fn init(&mut self) -> (r: Vec<Event>)
        requires
            old(self)@.phase is Idle,
            running_state(old(self)@) == Some(State::Init),
        ensures
            r@ == cycle_events(old(self)@, StartCause::Init),
            final(self)@ == drained_model(old(self)@),
            wf(final(self)@),
    {
        self.run_cycle(StartCause::Init)
    }

    /// Run the cycle an immediate wake asked for while polling.
    pub fn poll(&mut self) -> (r: Vec<Event>)
        requires
            old(self)@.phase is Idle,
            running_state(old(self)@) == Some(State::Poll),
        ensures
            r@ == cycle_events(old(self)@, StartCause::Poll),
            final(self)@ == drained_model(old(self)@),
            wf(final(self)@),
    {
        self.run_cycle(StartCause::Poll)
    }

    /// Run the cycle the deadline wake asked for: `now` is the moment the
    /// wake fired, never before the deadline, and the cause reports it
    /// together with the deadline that was requested.
    pub fn resume_time_reached(&mut self, now: Instant) -> (r: Vec<Event>)
        requires
            old(self)@.phase is Idle,
            (running_state(old(self)@) matches Some(State::WaitUntil { start, end })
                && now.millis >= end.millis),
        ensures
            ({
                match running_state(old(self)@) {
                    Some(State::WaitUntil { start, end }) => r@ == cycle_events(
                        old(self)@,
                        StartCause::ResumeTimeReached { start: now, requested_resume: end },
                    ),
                    _ => true,
                }
            }),
            final(self)@ == drained_model(old(self)@),
            wf(final(self)@),
    {
        let cause = match &self.runner {
            RunnerEnum::Running(runner) => match runner.state {
                State::WaitUntil { start: _, end } => StartCause::ResumeTimeReached {
                    start: now,
                    requested_resume: end,
                },
                _ => StartCause::Poll,
            },
            _ => StartCause::Poll,
        };
        self.run_cycle(cause)
    }

    /// Make the destroyed loop pending again for an on-demand re-run,
    /// where the caller kept the loop instead of handing it over: the
    /// next run starts over with its own first cycle and carries no
    /// windows, no queued work and no exit wish across, while the loop's
    /// identity — including the identifier counter — is preserved.
    pub fn reset_for_rerun(&mut self)
        requires
            old(self)@.runner is Destroyed,
            old(self)@.event_loop_recreation,
        ensures
            final(self)@ == (LoopModel {
                runner: RunnerEnum::Pending,
                control_flow: ControlFlow::Wait,
                exit: false,
                phase: CyclePhase::Idle,
                events: Seq::empty(),
                windows: Seq::empty(),
                redraw_pending: Seq::empty(),
                destroy_pending: Seq::empty(),
                ..old(self)@
            }),
    {
        self.runner = RunnerEnum::Pending;
        self.control_flow = ControlFlow::Wait;
        self.exit = false;
        self.phase = CyclePhase::Idle;
        self.events = Vec::new();
        self.windows = Vec::new();
        self.redraw_pending = Vec::new();
        self.destroy_pending = Vec::new();
    }

    /// Tear the exited loop down, exactly once: the routing table is
    /// cleared and the loop becomes destroyed, never to run again. The
    /// returned identifiers are the windows whose native listeners the
    /// backend must now remove.
    pub fn handle_loop_destroyed(&mut self) -> (r: Vec<WindowId>)
        requires
            old(self)@.phase is Idle,
            (old(self)@.runner matches RunnerEnum::Running(runner) && runner.state is Exit),
        ensures
            r@ == old(self)@.windows.map_values(|w: WindowEntry| w.id),
            final(self)@ == (LoopModel {
                runner: RunnerEnum::Destroyed,
                windows: Seq::empty(),
                ..old(self)@
            }),
    {
        self.runner = RunnerEnum::Destroyed;
        let mut ids: Vec<WindowId> = Vec::new();
        let mut idx: usize = 0;
        while idx < self.windows.len()
            invariant
                idx <= self.windows@.len(),
                ids@ == self.windows@.subrange(0, idx as int).map_values(|w: WindowEntry| w.id),
            decreases self.windows@.len() - idx,
        {
            ids.push(self.windows[idx].id);
            proof {
                assert(ids@ =~= self.windows@.subrange(0, idx as int + 1).map_values(
                    |w: WindowEntry| w.id,
                ));
            }
            idx = idx + 1;
        }
        proof {
            assert(self.windows@.subrange(0, self.windows@.len() as int) =~= self.windows@);
        }
        self.windows = Vec::new();
        ids
    }
}

/// Whether a page visibility change warrants an occlusion event for a
/// window whose surface may or may not intersect the viewport: a window
/// becoming hidden is reported unless it is known not to intersect, and a
/// window becoming visible is reported only when it is known to
/// intersect — otherwise the intersection observer reports it instead.
pub fn occlusion_event_wanted(is_visible: bool, is_intersecting: Option<bool>) -> (r: bool)
    ensures
        r == if is_visible {
            is_intersecting == Some(true)
        } else {
            is_intersecting != Some(false)
        },
{
    if is_visible {
        matches!(is_intersecting, Some(true))
    } else {
        !matches!(is_intersecting, Some(false))
    }
}

/// Whether a list of window identifiers holds the given one.
fn window_list_contains(list: &Vec<WindowId>, id: WindowId) -> (r: bool)
    ensures
        r == list@.contains(id),
{
    let mut idx: usize = 0;
    let mut found: bool = false;
    while idx < list.len()
        invariant
            idx <= list@.len(),
            found == exists|i: int| 0 <= i < idx && list@[i] == id,
        decreases list@.len() - idx,
    {
        if list[idx] == id {
            found = true;
        }
        idx = idx + 1;
    }
    proof {
        if found {
            let w = choose|i: int| 0 <= i < idx && list@[i] == id;
            assert(list@[w] == id);
        }
    }
    found
}

} // verus!
