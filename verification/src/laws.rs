//! What holds of the timer for every state, event and clock reading.
//!
//! Each law is stated over [`TimerView`], the value that the contracts of
//! [`crate::timer::Timer`] speak of, so it holds of every run of the
//! executable timer as well.

use crate::span::NANOS_PER_SEC;
use crate::timer::accepts;
use crate::timer::TimerEvent;
use crate::timer::TimerState;
use crate::timer::TimerView;
use crate::timer::BREAK_NANOS;
use crate::timer::WORK_NANOS;
use vstd::prelude::*;

verus! {

/// The timer starts out well formed, and neither an event nor a query can
/// make it ill formed: a start reading is held exactly while it runs, and
/// its budget never exceeds a work interval.
pub proof fn lemma_well_formed_always(timer: TimerView, event: TimerEvent, now: nat)
    requires
        timer.wf(),
    ensures
        TimerView::initial().wf(),
        timer.step(event, now).wf(),
        timer.observe(now).wf(),
{
}

/// The remaining time never exceeds the budget, and the budget never exceeds
/// a work interval.
pub proof fn lemma_remaining_bounded(timer: TimerView, now: nat)
    requires
        timer.wf(),
    ensures
        timer.remaining(now) <= timer.target <= WORK_NANOS,
{
}

/// While the timer runs, a later query never reports more time than an
/// earlier one.
pub proof fn lemma_remaining_never_grows(timer: TimerView, earlier: nat, later: nat)
    requires
        timer.wf(),
        earlier <= later,
    ensures
        timer.observe(earlier).remaining(later) <= timer.remaining(earlier),
        timer.remaining(later) <= timer.remaining(earlier),
{
}

/// While the timer runs, a query at a later clock reading reports strictly
/// less time than the one before it. The timer still runs after the first
/// query, and neither reading lies before the start of the run.
pub proof fn lemma_remaining_strictly_falls(timer: TimerView, earlier: nat, later: nat)
    requires
        timer.wf(),
        timer.observe(earlier).state is Running,
        timer.start->0 <= earlier < later,
    ensures
        timer.observe(earlier).remaining(later) < timer.remaining(earlier),
{
}

/// Right after a work interval starts the whole twenty-five minutes remain,
/// and within the first second more than twenty-four minutes and fifty-nine
/// seconds do.
pub proof fn lemma_work_starts_full(timer: TimerView, start: nat, now: nat)
    requires
        timer.state is Idle,
        start <= now < start + NANOS_PER_SEC,
    ensures
        timer.step(TimerEvent::StartWork, start).state is Running,
        timer.step(TimerEvent::StartWork, start).remaining(start) == WORK_NANOS,
        timer.step(TimerEvent::StartWork, start).remaining(now) <= 25 * 60 * NANOS_PER_SEC,
        timer.step(TimerEvent::StartWork, start).remaining(now) > (24 * 60 + 59) * NANOS_PER_SEC,
{
}

/// Right after a break starts the whole five minutes remain, and within the
/// first second more than four minutes and fifty-nine seconds do.
pub proof fn lemma_break_starts_full(timer: TimerView, start: nat, now: nat)
    requires
        timer.state is Idle,
        start <= now < start + NANOS_PER_SEC,
    ensures
        timer.step(TimerEvent::StartBreak, start).state is Running,
        timer.step(TimerEvent::StartBreak, start).remaining(start) == BREAK_NANOS,
        timer.step(TimerEvent::StartBreak, start).remaining(now) <= 5 * 60 * NANOS_PER_SEC,
        timer.step(TimerEvent::StartBreak, start).remaining(now) > (4 * 60 + 59) * NANOS_PER_SEC,
{
}

/// Time does not advance while the timer is paused: whenever it is asked, it
/// reports what remained at the moment of the pause, and asking changes
/// nothing.
pub proof fn lemma_pause_freezes_time(timer: TimerView, paused_at: nat, now: nat)
    requires
        timer.wf(),
        timer.state is Running,
    ensures
        timer.step(TimerEvent::Pause, paused_at).state is Paused,
        timer.step(TimerEvent::Pause, paused_at).remaining(now) == timer.remaining(paused_at),
        timer.step(TimerEvent::Pause, paused_at).observe(now) == timer.step(
            TimerEvent::Pause,
            paused_at,
        ),
{
}

/// Resuming a paused timer sets it running again from the reading at which
/// it is resumed, with the budget that the pause had kept. Where the clock
/// has advanced since the run began, the new start lies strictly after the
/// old one.
pub proof fn lemma_resume_restarts_later(
    timer: TimerView,
    paused_at: nat,
    resumed_at: nat,
)
    requires
        timer.wf(),
        timer.state is Running,
        timer.start->0 < resumed_at,
    ensures
        ({
            let paused = timer.step(TimerEvent::Pause, paused_at);
            let resumed = paused.step(TimerEvent::Resume, resumed_at);
            &&& resumed.state is Running
            &&& resumed.start == Some(resumed_at)
            &&& resumed.start->0 > timer.start->0
            &&& resumed.target == timer.remaining(paused_at)
            &&& resumed.remaining(resumed_at) == timer.remaining(paused_at)
        }),
{
}

/// A running timer becomes completed at the first query that finds nothing
/// left, and at no other. Once completed, every query reports zero and
/// changes nothing.
pub proof fn lemma_completes_once(timer: TimerView, now: nat, later: nat)
    requires
        timer.wf(),
        timer.state is Running,
    ensures
        timer.remaining(now) == 0 <==> timer.observe(now).state is Completed,
        timer.remaining(now) > 0 ==> timer.observe(now) == timer,
        timer.remaining(now) == 0 ==> timer.observe(now).remaining(later) == 0,
        timer.remaining(now) == 0 ==> timer.observe(now).observe(later) == timer.observe(now),
{
}

/// Only a running timer is changed by a query.
pub proof fn lemma_query_changes_running_only(timer: TimerView, now: nat)
    requires
        !(timer.state is Running),
    ensures
        timer.observe(now) == timer,
{
}

/// A reset from paused or completed gives an idle timer, and the next work
/// interval starts with exactly twenty-five minutes, whatever was left
/// before.
pub proof fn lemma_reset_forgets_progress(timer: TimerView, reset_at: nat, start: nat)
    requires
        timer.state is Paused || timer.state is Completed,
    ensures
        ({
            let idle = timer.step(TimerEvent::Reset, reset_at);
            let restarted = idle.step(TimerEvent::StartWork, start);
            &&& idle.state is Idle
            &&& idle.remaining(start) == 0
            &&& restarted.state is Running
            &&& restarted.remaining(start) == WORK_NANOS
        }),
{
}

/// An event that the present state does not accept changes nothing, and an
/// event that it accepts changes the state.
pub proof fn lemma_unaccepted_event_is_noop(timer: TimerView, event: TimerEvent, now: nat)
    ensures
        !accepts(timer.state, event) ==> timer.step(event, now) == timer,
        accepts(timer.state, event) ==> timer.step(event, now).state != timer.state,
{
}

/// A timer that has seen no accepted event reports zero.
pub proof fn lemma_idle_reports_zero(timer: TimerView, now: nat)
    requires
        timer.state is Idle,
    ensures
        timer.remaining(now) == 0,
        TimerView::initial().remaining(now) == 0,
        TimerView::initial().step(TimerEvent::Pause, now) == TimerView::initial(),
{
}

} // verus!
