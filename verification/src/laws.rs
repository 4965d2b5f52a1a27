//! The laws the dispatch engine keeps, stated and proved once for every
//! state the runner can reach.

use vstd::prelude::*;


use crate::control_flow::{ControlFlow, Runner, RunnerEnum, start_cause_of, State};
use crate::event::StartCause;
use crate::runner::{
    applied_state, begin_events, cause_matches, cycle_events, destroyed_event, drained_model,
    end_events, Event, is_producer_event, LoopModel, not_destroyed, redraw_event, send_disposition,
    SendOutcome, sent_model, spec_closed, surviving_redraws, WakeAction, wf,
};
use crate::time::Instant;
use crate::window::WindowId;

verus! {

/// The predicate holding of the one event equal to `e`.
pub open spec fn matches_event(e: Event) -> spec_fn(Event) -> bool {
    |x: Event| x == e
}

/// How many of the events are the event `e`.
pub open spec fn count_matching(events: Seq<Event>, e: Event) -> int {
    events.filter(matches_event(e)).len() as int
}

/// Counting an event in a concatenation counts it in each part.
proof fn lemma_count_matching_add(a: Seq<Event>, b: Seq<Event>, e: Event)
    ensures
        count_matching(a + b, e) == count_matching(a, e) + count_matching(b, e),
{
    Seq::<Event>::filter_distributes_over_add(a, b, matches_event(e));
}

/// A sequence without `e` counts zero of it.
proof fn lemma_count_matching_zero(events: Seq<Event>, e: Event)
    requires
        forall|i: int| 0 <= i < events.len() ==> events[i] != e,
    ensures
        count_matching(events, e) == 0,
    decreases events.len(),
{
    reveal(Seq::filter);
    if events.len() > 0 {
        lemma_count_matching_zero(events.drop_last(), e);
    }
}

/// Mapping distinct windows to their redraw notices counts the notice of
/// `w` exactly once when `w` is among them and never otherwise.
proof fn lemma_count_matching_mapped_redraws(s: Seq<WindowId>, w: WindowId)
    requires
        forall|i: int, j: int| 0 <= i < j < s.len() ==> s[i] != s[j],
    ensures
        count_matching(s.map_values(|id: WindowId| redraw_event(id)), redraw_event(w)) == if s.contains(
            w,
        ) {
            1int
        } else {
            0int
        },
    decreases s.len(),
{
    reveal(Seq::filter);
    let mapped = s.map_values(|id: WindowId| redraw_event(id));
    if s.len() == 0 {
        assert(mapped =~= Seq::<Event>::empty());
        assert(!s.contains(w));
    } else {
        let s0 = s.drop_last();
        let last = s.last();
        lemma_count_matching_mapped_redraws(s0, w);
        let mapped0 = s0.map_values(|id: WindowId| redraw_event(id));
        assert(mapped =~= mapped0.push(redraw_event(last)));
        assert(mapped.drop_last() =~= mapped0);
        if last == w {
            // distinctness keeps `w` out of the rest
            assert(!s0.contains(w)) by {
                if s0.contains(w) {
                    let k = choose|k: int| 0 <= k < s0.len() && s0[k] == w;
                    assert(s[k] == w && s[s.len() - 1] == w);
                }
            }
            assert(s.contains(w)) by {
                assert(s[s.len() - 1] == w);
            }
        } else {
            assert(s.contains(w) == s0.contains(w)) by {
                if s.contains(w) {
                    let k = choose|k: int| 0 <= k < s.len() && s[k] == w;
                    assert(k < s.len() - 1);
                    assert(s0[k] == w);
                }
                if s0.contains(w) {
                    let k = choose|k: int| 0 <= k < s0.len() && s0[k] == w;
                    assert(s[k] == w);
                }
            }
            assert(redraw_event(last) != redraw_event(w));
        }
    }
}

/// The redraws surviving a cycle are distinct, hold `w` exactly when `w`
/// has a redraw pending and no destruction pending, and none of the other
/// events of the cycle is `w`'s redraw notice.
proof fn lemma_cycle_redraw_count(m: LoopModel, cause: StartCause, w: WindowId)
    requires
        wf(m),
    ensures
        count_matching(cycle_events(m, cause), redraw_event(w)) == (if m.redraw_pending.contains(w)
            && !m.destroy_pending.contains(w) {
            1int
        } else {
            0int
        }),
{
    broadcast use vstd::seq_lib::group_seq_properties;

    let target = redraw_event(w);
    let begin = begin_events(m, cause);
    let survivors = surviving_redraws(m);
    let destroyed_part = m.destroy_pending.map_values(|id: WindowId| destroyed_event(id));
    let redraw_part = survivors.map_values(|id: WindowId| redraw_event(id));
    let wait_part = seq![Event::AboutToWait];

    lemma_count_matching_add(begin + m.events, end_events(m), target);
    lemma_count_matching_add(begin, m.events, target);
    lemma_count_matching_add(destroyed_part + redraw_part, wait_part, target);
    lemma_count_matching_add(destroyed_part, redraw_part, target);
    assert(cycle_events(m, cause) == (begin + m.events) + end_events(m));
    assert(end_events(m) == (destroyed_part + redraw_part) + wait_part);

    assert(count_matching(begin, target) == 0) by {
        lemma_count_matching_zero(begin, target);
    }
    assert(count_matching(m.events, target) == 0) by {
        assert(forall|i: int| 0 <= i < m.events.len() ==> m.events[i] != target) by {
            assert(!is_producer_event(target));
        }
        lemma_count_matching_zero(m.events, target);
    }
    assert(count_matching(destroyed_part, target) == 0) by {
        assert(forall|i: int| 0 <= i < destroyed_part.len() ==> destroyed_part[i] != target);
        lemma_count_matching_zero(destroyed_part, target);
    }
    assert(count_matching(wait_part, target) == 0) by {
        lemma_count_matching_zero(wait_part, target);
    }

    // the survivors are distinct, as a filtered distinct sequence
    assert(forall|i: int, j: int| 0 <= i < j < survivors.len() ==> survivors[i] != survivors[j])
        by {
        lemma_filter_of_distinct(m.redraw_pending, not_destroyed(m.destroy_pending));
    }
    // the survivors hold `w` exactly when it is pending and not destroyed
    assert(survivors.contains(w) == (m.redraw_pending.contains(w) && !m.destroy_pending.contains(
        w,
    ))) by {
        if m.redraw_pending.contains(w) && !m.destroy_pending.contains(w) {
            let k = choose|k: int| 0 <= k < m.redraw_pending.len() && m.redraw_pending[k] == w;
            m.redraw_pending.lemma_filter_contains(not_destroyed(m.destroy_pending), k);
        }
        if survivors.contains(w) {
            m.redraw_pending.lemma_filter_contains_rev(not_destroyed(m.destroy_pending), w);
        }
    }
    lemma_count_matching_mapped_redraws(survivors, w);
}

/// Filtering keeps a distinct sequence distinct.
proof fn lemma_filter_of_distinct(s: Seq<WindowId>, pred: spec_fn(WindowId) -> bool)
    requires
        forall|i: int, j: int| 0 <= i < j < s.len() ==> s[i] != s[j],
    ensures
        forall|i: int, j: int|
            0 <= i < j < s.filter(pred).len() ==> s.filter(pred)[i] != s.filter(pred)[j],
    decreases s.len(),
{
    reveal(Seq::filter);
    if s.len() > 0 {
        let s0 = s.drop_last();
        lemma_filter_of_distinct(s0, pred);
        if pred(s.last()) {
            assert forall|i: int|
                0 <= i < s0.filter(pred).len() implies s0.filter(pred)[i] != s.last() by {
                s0.lemma_filter_contains_rev(pred, s0.filter(pred)[i]);
                let k = choose|k: int| 0 <= k < s0.len() && s0[k] == s0.filter(pred)[i];
                assert(s[k] == s0.filter(pred)[i] && s[s.len() - 1] == s.last());
            }
        }
    }
}

/// Redraw coalescing: however many times a window asked to be redrawn,
/// one cycle delivers exactly one `RedrawRequested` for it — and none at
/// all when its destruction is pending.
pub proof fn lemma_redraw_coalescing(m: LoopModel, cause: StartCause, w: WindowId)
    requires
        wf(m),
        m.redraw_pending.contains(w),
        !m.destroy_pending.contains(w),
    ensures
        count_matching(cycle_events(m, cause), redraw_event(w)) == 1,
{
    lemma_cycle_redraw_count(m, cause, w);
}

/// Destroy before redraw: a window whose destruction is pending receives
/// its `Destroyed` notice in the cycle and no `RedrawRequested` at all,
/// however it asked to be redrawn.
pub proof fn lemma_destroy_before_redraw(m: LoopModel, cause: StartCause, w: WindowId)
    requires
        wf(m),
        m.destroy_pending.contains(w),
    ensures
        cycle_events(m, cause).contains(destroyed_event(w)),
        count_matching(cycle_events(m, cause), redraw_event(w)) == 0,
{
    broadcast use vstd::seq_lib::group_seq_properties;

    lemma_cycle_redraw_count(m, cause, w);
    let destroyed_part = m.destroy_pending.map_values(|id: WindowId| destroyed_event(id));
    let k = choose|k: int| 0 <= k < m.destroy_pending.len() && m.destroy_pending[k] == w;
    assert(destroyed_part[k] == destroyed_event(w));
    assert(end_events(m)[k] == destroyed_event(w));
    let begin = begin_events(m, cause);
    assert(cycle_events(m, cause)[begin.len() + m.events.len() + k] == destroyed_event(w));
}

/// A deadline wake never fires early: any `ResumeTimeReached` cause that
/// can begin a cycle carries an actual start no earlier than the resume
/// moment that was requested.
pub proof fn lemma_resume_not_early(state: State, start: Instant, requested: Instant)
    requires
        cause_matches(state, StartCause::ResumeTimeReached { start, requested_resume: requested }),
    ensures
        start.millis >= requested.millis,
{
}

/// Choosing `WaitUntil` with a deadline already past schedules an
/// immediate wake, and the cycle that wake begins carries the requested
/// deadline unchanged, with an actual start no earlier than it.
pub proof fn lemma_wait_until_past_deadline(m: LoopModel, now: Instant, fired: Instant, deadline: Instant)
    requires
        !m.exit,
        m.control_flow == ControlFlow::WaitUntil(deadline),
        deadline.millis <= now.millis,
        fired.millis >= deadline.millis,
    ensures
        wake_action_of_is_immediate(m, now),
        applied_state(m, now) == (State::WaitUntil { start: now, end: deadline }),
        cause_matches(
            applied_state(m, now),
            StartCause::ResumeTimeReached { start: fired, requested_resume: deadline },
        ),
{
}

/// Whether the wake a cycle schedules is a timed wake of no delay.
pub open spec fn wake_action_of_is_immediate(m: LoopModel, now: Instant) -> bool {
    crate::runner::wake_action_of(m, now) == (WakeAction::ScheduleWakeUp {
        delay_millis: 0,
        strategy: m.wait_until_strategy,
    })
}

/// A polling loop with nothing pending delivers exactly `NewEvents(Poll)`
/// then `AboutToWait`, and — while the application keeps `Poll` set and
/// does not exit — finishing the cycle returns it to the very same
/// footing, so the pair repeats cycle after cycle.
pub proof fn lemma_poll_cycle_steady(m: LoopModel, now: Instant)
    requires
        wf(m),
        m.runner == RunnerEnum::Running(Runner { state: State::Poll }),
        m.phase is Idle,
        m.events.len() == 0,
        m.redraw_pending.len() == 0,
        m.destroy_pending.len() == 0,
        m.control_flow is Poll,
        !m.exit,
    ensures
        cycle_events(m, StartCause::Poll) =~= seq![
            Event::NewEvents(StartCause::Poll),
            Event::AboutToWait,
        ],
        crate::runner::wake_action_of(drained_model(m), now) == WakeAction::SchedulePoll(
            m.poll_strategy,
        ),
        ({
            let m2 = LoopModel {
                runner: RunnerEnum::Running(Runner { state: applied_state(drained_model(m), now) }),
                phase: crate::runner::CyclePhase::Idle,
                ..drained_model(m)
            };
            &&& m2.runner == RunnerEnum::Running(Runner { state: State::Poll })
            &&& m2.phase is Idle
            &&& m2.events.len() == 0
            &&& m2.redraw_pending.len() == 0
            &&& m2.destroy_pending.len() == 0
            &&& m2.control_flow == m.control_flow
            &&& m2.exit == m.exit
            &&& m2.windows == m.windows
            &&& wf(m2)
        }),
{
    reveal(Seq::filter);
    assert(m.redraw_pending =~= Seq::<WindowId>::empty());
    assert(surviving_redraws(m) =~= Seq::<WindowId>::empty());
    assert(cycle_events(m, StartCause::Poll) =~= seq![
        Event::NewEvents(StartCause::Poll),
        Event::AboutToWait,
    ]);
    assert(drained_model(m).windows =~= m.windows) by {
        assert(forall|i: int|
            0 <= i < m.windows.len() ==> !m.destroy_pending.contains(#[trigger] m.windows[i].id));
        lemma_filter_all_pos(m.windows, |w: crate::runner::WindowEntry| !m.destroy_pending.contains(w.id));
    }
}

/// Filtering by a predicate that holds everywhere keeps the sequence.
proof fn lemma_filter_all_pos<A>(s: Seq<A>, pred: spec_fn(A) -> bool)
    requires
        forall|i: int| 0 <= i < s.len() ==> pred(#[trigger] s[i]),
    ensures
        s.filter(pred) =~= s,
    decreases s.len(),
{
    reveal(Seq::filter);
    if s.len() > 0 {
        lemma_filter_all_pos(s.drop_last(), pred);
        assert(s.drop_last().filter(pred).push(s.last()) =~= s);
    }
}

/// Exit is terminal: once the application has asked to exit and the cycle
/// ends, the action is teardown, the loop is closed, no cause exists for
/// a further cycle, and every later hand-off is discarded unchanged.
pub proof fn lemma_exit_terminal(m: LoopModel, now: Instant, events: Seq<Event>)
    requires
        m.exit,
        m.runner is Running,
    ensures
        crate::runner::wake_action_of(m, now) == WakeAction::Exit,
        applied_state(m, now) is Exit,
        ({
            let m2 = LoopModel {
                runner: RunnerEnum::Running(Runner { state: State::Exit }),
                phase: crate::runner::CyclePhase::Idle,
                ..m
            };
            &&& start_cause_of(State::Exit) is None
            &&& spec_closed(m2)
            &&& send_disposition(m2) is Discarded
            &&& sent_model(m2, events) == m2
        }),
{
}

} // verus!
