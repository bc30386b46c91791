use std::time::Duration;
use tomate::span::TimeSpan;
use tomate::timer::{event_accepted, Timer, TimerEvent, TimerState};

const SEC: u128 = 1_000_000_000;
const MS: u128 = 1_000_000;

fn std_duration(span: TimeSpan) -> Duration {
    Duration::from_nanos(span.as_nanos())
}

#[test]
fn test_timer_starts_work_with_25_minutes() {
    // Arrange
    let mut timer = Timer::new();

    // Act
    timer.handle_input(TimerEvent::StartWork);

    // Assert
    let remaining = std_duration(timer.get_remaining_time());
    assert!(remaining > Duration::from_secs(24 * 60 + 59)); // At least 24:59
    assert!(remaining <= Duration::from_secs(25 * 60)); // At most 25:00
}

#[test]
fn test_timer_starts_break_with_5_minutes() {
    let mut timer = Timer::new();

    timer.handle_input(TimerEvent::StartBreak);

    let remaining = std_duration(timer.get_remaining_time());
    assert!(remaining > Duration::from_secs(4 * 60 + 59));
    assert!(remaining <= Duration::from_secs(5 * 60));
}

#[test]
fn test_timer_pauses_after_pausing() {
    let mut timer = Timer::new();
    timer.handle_input(TimerEvent::StartWork);
    timer.handle_input(TimerEvent::Pause);
    assert!(matches!(timer.state(), TimerState::Paused));
}

#[test]
fn test_timer_counts_down() {
    let mut timer = Timer::new();
    timer.handle_input_at(TimerEvent::StartWork, 0);

    let initial = timer.remaining_time_at(0);
    let after = timer.remaining_time_at(100 * MS);

    assert!(after < initial, "Time should decrease");
    assert_eq!(initial.as_nanos() - after.as_nanos(), 100_000_000);
}

#[test]
fn test_timer_resumes_after_resuming() {
    let mut timer = Timer::new();
    timer.handle_input_at(TimerEvent::StartWork, 5 * SEC);
    timer.handle_input_at(TimerEvent::Pause, 6 * SEC);

    timer.handle_input_at(TimerEvent::Resume, 6 * SEC + 100 * MS);
    assert!(matches!(timer.state(), TimerState::Running));
    // The run now counts from the moment of the resume: a second later,
    // exactly one more second is gone.
    let remaining = timer.remaining_time_at(7 * SEC + 100 * MS);
    assert_eq!(remaining, TimeSpan::from_secs(25 * 60 - 2));
}

#[test]
fn pause_stops_time() {
    let mut timer = Timer::new();
    timer.handle_input_at(TimerEvent::StartWork, 0);

    timer.handle_input_at(TimerEvent::Pause, 50 * MS);
    let remaining_at_pause = timer.remaining_time_at(50 * MS);

    let time_after_pause = timer.remaining_time_at(100 * MS);
    assert!(time_after_pause == remaining_at_pause);
    assert_eq!(time_after_pause.as_nanos(), 1_499_950_000_000);
}

#[test]
fn pause_stops_time_on_the_clock() {
    let mut timer = Timer::new();
    timer.handle_input(TimerEvent::StartWork);
    timer.handle_input(TimerEvent::Pause);
    let remaining_at_pause = timer.get_remaining_time();
    let mut spin: u64 = 0;
    for i in 0..200_000u64 {
        spin = spin.wrapping_add(i);
    }
    assert!(spin > 0);
    let time_after_pause = timer.get_remaining_time();
    assert!(time_after_pause == remaining_at_pause);
}

#[test]
fn clock_never_runs_back() {
    let mut timer = Timer::new();
    timer.handle_input(TimerEvent::StartWork);
    let mut last = timer.get_remaining_time();
    for _ in 0..1000 {
        let next = timer.get_remaining_time();
        assert!(next <= last);
        last = next;
    }
    assert!(matches!(timer.state(), TimerState::Running));
}

#[test]
fn new_timer_is_idle_and_reports_zero() {
    let mut timer = Timer::new();
    assert_eq!(timer.state(), TimerState::Idle);
    assert_eq!(timer.get_remaining_time(), TimeSpan::zero());
    assert_eq!(timer.remaining_time_at(12345), TimeSpan::zero());
    assert_eq!(timer.state(), TimerState::Idle);
}

#[test]
fn default_timer_is_idle() {
    let mut timer = Timer::default();
    assert_eq!(timer.state(), TimerState::Idle);
    assert!(timer.get_remaining_time().is_zero());
}

#[test]
fn pause_keeps_24_50_after_200_ms() {
    let mut timer = Timer::new();
    timer.handle_input_at(TimerEvent::StartWork, 0);
    timer.handle_input_at(TimerEvent::Pause, 10 * SEC);
    assert_eq!(timer.state(), TimerState::Paused);
    assert_eq!(timer.remaining_time_at(10 * SEC), TimeSpan::from_secs(24 * 60 + 50));
    assert_eq!(timer.remaining_time_at(10 * SEC + 200 * MS), TimeSpan::from_secs(24 * 60 + 50));
    assert_eq!(timer.state(), TimerState::Paused);
}

#[test]
fn start_work_within_first_second() {
    let mut timer = Timer::new();
    timer.handle_input_at(TimerEvent::StartWork, 3 * SEC);
    assert_eq!(timer.remaining_time_at(3 * SEC), TimeSpan::from_secs(25 * 60));
    let later = timer.remaining_time_at(4 * SEC - 1);
    assert!(later > TimeSpan::from_secs(24 * 60 + 59));
    assert_eq!(later.as_nanos(), 1_499_000_000_001);
}

#[test]
fn start_break_within_first_second() {
    let mut timer = Timer::new();
    timer.handle_input_at(TimerEvent::StartBreak, 3 * SEC);
    assert_eq!(timer.remaining_time_at(3 * SEC), TimeSpan::from_secs(5 * 60));
    let later = timer.remaining_time_at(4 * SEC - 1);
    assert!(later > TimeSpan::from_secs(4 * 60 + 59));
    assert!(later <= TimeSpan::from_secs(5 * 60));
}

#[test]
fn remaining_falls_with_each_later_reading() {
    let mut timer = Timer::new();
    timer.handle_input_at(TimerEvent::StartWork, 0);
    let a = timer.remaining_time_at(1);
    let b = timer.remaining_time_at(2);
    let c = timer.remaining_time_at(2);
    assert!(b < a);
    assert_eq!(c, b);
    assert_eq!(a.as_nanos(), 1_499_999_999_999);
}

#[test]
fn reading_before_start_counts_as_no_time() {
    let mut timer = Timer::new();
    timer.handle_input_at(TimerEvent::StartWork, 10 * SEC);
    assert_eq!(timer.remaining_time_at(3 * SEC), TimeSpan::from_secs(25 * 60));
    timer.handle_input_at(TimerEvent::Pause, 5 * SEC);
    assert_eq!(timer.remaining_time_at(0), TimeSpan::from_secs(25 * 60));
}

#[test]
fn completes_once_at_zero() {
    let mut timer = Timer::new();
    timer.handle_input_at(TimerEvent::StartBreak, 0);
    let almost = timer.remaining_time_at(300 * SEC - 1);
    assert_eq!(almost.as_nanos(), 1);
    assert_eq!(timer.state(), TimerState::Running);
    assert_eq!(timer.remaining_time_at(300 * SEC), TimeSpan::zero());
    assert_eq!(timer.state(), TimerState::Completed);
    assert_eq!(timer.remaining_time_at(301 * SEC), TimeSpan::zero());
    assert_eq!(timer.remaining_time_at(0), TimeSpan::zero());
    assert_eq!(timer.state(), TimerState::Completed);
}

#[test]
fn completion_is_lazy() {
    let mut timer = Timer::new();
    timer.handle_input_at(TimerEvent::StartBreak, 0);
    // Nobody asked for the time: the timer still runs, and a pause freezes zero.
    assert_eq!(timer.state(), TimerState::Running);
    timer.handle_input_at(TimerEvent::Pause, 1000 * SEC);
    assert_eq!(timer.state(), TimerState::Paused);
    assert_eq!(timer.remaining_time_at(1000 * SEC), TimeSpan::zero());
    assert_eq!(timer.state(), TimerState::Paused);
}

#[test]
fn far_overdue_saturates_at_zero() {
    let mut timer = Timer::new();
    timer.handle_input_at(TimerEvent::StartWork, 0);
    assert_eq!(timer.remaining_time_at(u128::MAX), TimeSpan::zero());
    assert_eq!(timer.state(), TimerState::Completed);
}

#[test]
fn reset_from_paused_forgets_progress() {
    let mut timer = Timer::new();
    timer.handle_input_at(TimerEvent::StartBreak, 0);
    timer.handle_input_at(TimerEvent::Pause, 60 * SEC);
    timer.handle_input_at(TimerEvent::Reset, 61 * SEC);
    assert_eq!(timer.state(), TimerState::Idle);
    assert_eq!(timer.remaining_time_at(62 * SEC), TimeSpan::zero());
    timer.handle_input_at(TimerEvent::StartWork, 70 * SEC);
    assert_eq!(timer.remaining_time_at(70 * SEC), TimeSpan::from_secs(25 * 60));
}

#[test]
fn reset_from_completed_forgets_progress() {
    let mut timer = Timer::new();
    timer.handle_input_at(TimerEvent::StartBreak, 0);
    assert!(timer.remaining_time_at(400 * SEC).is_zero());
    assert_eq!(timer.state(), TimerState::Completed);
    timer.handle_input_at(TimerEvent::Reset, 401 * SEC);
    assert_eq!(timer.state(), TimerState::Idle);
    timer.handle_input_at(TimerEvent::StartWork, 500 * SEC);
    assert_eq!(timer.remaining_time_at(500 * SEC).as_secs(), 1500);
}

#[test]
fn pause_while_idle_is_noop() {
    let mut timer = Timer::new();
    timer.handle_input(TimerEvent::Pause);
    assert_eq!(timer.state(), TimerState::Idle);
    assert_eq!(timer.get_remaining_time(), TimeSpan::zero());
    timer.handle_input_at(TimerEvent::Pause, 9 * SEC);
    assert_eq!(timer.state(), TimerState::Idle);
    assert_eq!(timer.remaining_time_at(9 * SEC).as_nanos(), 0);
}

#[test]
fn every_unaccepted_event_is_noop() {
    let events = [
        TimerEvent::StartWork,
        TimerEvent::StartBreak,
        TimerEvent::Pause,
        TimerEvent::Resume,
        TimerEvent::Reset,
    ];
    for setup in 0..4 {
        for event in events {
            let mut timer = Timer::new();
            if setup >= 1 {
                timer.handle_input_at(TimerEvent::StartBreak, 0);
            }
            if setup == 2 {
                timer.handle_input_at(TimerEvent::Pause, 10 * SEC);
            }
            if setup == 3 {
                timer.remaining_time_at(300 * SEC);
            }
            let before = timer.state();
            let accepted = event_accepted(before, event);
            timer.handle_input_at(event, 20 * SEC);
            assert_eq!(timer.state() != before, accepted);
            if !accepted && before != TimerState::Running {
                let expected = if before == TimerState::Paused { 290 } else { 0 };
                assert_eq!(timer.remaining_time_at(25 * SEC).as_secs(), expected);
            }
            if !accepted && before == TimerState::Running {
                assert_eq!(timer.remaining_time_at(25 * SEC).as_secs(), 275);
            }
        }
    }
}

#[test]
fn accepted_events_table() {
    assert!(event_accepted(TimerState::Idle, TimerEvent::StartWork));
    assert!(event_accepted(TimerState::Idle, TimerEvent::StartBreak));
    assert!(event_accepted(TimerState::Running, TimerEvent::Pause));
    assert!(event_accepted(TimerState::Paused, TimerEvent::Resume));
    assert!(event_accepted(TimerState::Paused, TimerEvent::Reset));
    assert!(event_accepted(TimerState::Completed, TimerEvent::Reset));
    assert!(!event_accepted(TimerState::Idle, TimerEvent::Reset));
    assert!(!event_accepted(TimerState::Running, TimerEvent::Reset));
    assert!(!event_accepted(TimerState::Running, TimerEvent::StartWork));
    assert!(!event_accepted(TimerState::Completed, TimerEvent::Resume));
}

#[test]
fn resume_keeps_the_paused_budget() {
    let mut timer = Timer::new();
    timer.handle_input_at(TimerEvent::StartWork, 0);
    timer.handle_input_at(TimerEvent::Pause, 100 * SEC);
    timer.handle_input_at(TimerEvent::Resume, 1000 * SEC);
    assert_eq!(timer.remaining_time_at(1000 * SEC).as_secs(), 1400);
    assert_eq!(timer.remaining_time_at(1100 * SEC).as_secs(), 1300);
    timer.handle_input_at(TimerEvent::Pause, 1200 * SEC);
    assert_eq!(timer.remaining_time_at(5000 * SEC).as_secs(), 1200);
}

#[test]
fn time_span_arithmetic() {
    assert_eq!(TimeSpan::from_secs(2).as_nanos(), 2_000_000_000);
    assert_eq!(TimeSpan::from_nanos(1_999_999_999).as_secs(), 1);
    assert_eq!(TimeSpan::from_nanos(5).saturating_sub_nanos(3).as_nanos(), 2);
    assert_eq!(TimeSpan::from_nanos(5).saturating_sub_nanos(5), TimeSpan::zero());
    assert_eq!(TimeSpan::from_nanos(5).saturating_sub_nanos(u128::MAX), TimeSpan::zero());
    assert!(TimeSpan::zero().is_zero());
    assert!(!TimeSpan::from_nanos(1).is_zero());
    assert_eq!(TimeSpan::from_secs(18_446_744_073).as_secs(), 18_446_744_073);
}

#[test]
fn clock_readings_never_go_back() {
    let mut clock = tomate::clock::Clock::start();
    assert_eq!(clock.latest(), 0);
    let mut last = clock.now();
    for _ in 0..1000 {
        let next = clock.now();
        assert!(next >= last);
        assert_eq!(clock.latest(), next);
        last = next;
    }
}
