use midi_connect::scheduler::{Action, Phase, Scheduler, POLL_INTERVAL_MS};

fn polling_with_timer(token: i32) -> Scheduler {
    let mut s = Scheduler::new();
    assert_eq!(s.phase(), Phase::Idle);
    assert_eq!(s.start(), Action::StartTimer { interval_ms: POLL_INTERVAL_MS });
    assert_eq!(s.timer_started(Some(token)), Action::Wait);
    assert_eq!(s.phase(), Phase::Polling);
    s
}

#[test]
fn start_asks_for_two_hundred_ms_timer() {
    let mut s = Scheduler::new();
    assert_eq!(s.start(), Action::StartTimer { interval_ms: 200 });
    assert_eq!(s.start(), Action::Ignore);
}

#[test]
fn port_appearing_on_second_tick_connects() {
    let mut s = polling_with_timer(5);
    assert_eq!(s.tick(0), Action::Wait);
    assert_eq!(s.phase(), Phase::Polling);
    assert_eq!(s.timer_token(), Some(5));
    assert_eq!(s.tick(1), Action::Connect { index: 0 });
    assert_eq!(s.connect_outcome(true), Action::StopTimer { token: Some(5) });
    assert_eq!(s.phase(), Phase::Connected);
    assert_eq!(s.timer_token(), None);
    assert_eq!(s.tick(1), Action::Ignore);
}

#[test]
fn two_ports_prompt_and_answer_one_picks_second() {
    let mut s = polling_with_timer(9);
    assert_eq!(s.tick(2), Action::Prompt);
    assert_eq!(s.phase(), Phase::Choosing { count: 2 });
    assert_eq!(s.answer(Some("1".to_string())), Action::Connect { index: 1 });
    assert_eq!(s.phase(), Phase::Connecting { index: 1 });
    assert_eq!(s.connect_outcome(true), Action::StopTimer { token: Some(9) });
    assert_eq!(s.phase(), Phase::Connected);
}

#[test]
fn invalid_answer_prompts_again() {
    let mut s = polling_with_timer(3);
    assert_eq!(s.tick(2), Action::Prompt);
    assert_eq!(s.answer(Some("abc".to_string())), Action::Prompt);
    assert_eq!(s.phase(), Phase::Choosing { count: 2 });
    assert_eq!(s.answer(Some("1".to_string())), Action::Connect { index: 1 });
}

#[test]
fn dismissed_or_out_of_range_answer_prompts_again() {
    let mut s = polling_with_timer(3);
    assert_eq!(s.tick(3), Action::Prompt);
    assert_eq!(s.answer(None), Action::Prompt);
    assert_eq!(s.answer(Some("3".to_string())), Action::Prompt);
    assert_eq!(s.answer(Some("2".to_string())), Action::Connect { index: 2 });
}

#[test]
fn failed_connect_retries_on_next_tick() {
    let mut s = polling_with_timer(4);
    assert_eq!(s.tick(1), Action::Connect { index: 0 });
    assert_eq!(s.connect_outcome(false), Action::Wait);
    assert_eq!(s.phase(), Phase::Polling);
    assert_eq!(s.timer_token(), Some(4));
    assert_eq!(s.tick(1), Action::Connect { index: 0 });
    assert_eq!(s.connect_outcome(true), Action::StopTimer { token: Some(4) });
    assert_eq!(s.phase(), Phase::Connected);
}

#[test]
fn abandoned_attempt_returns_to_polling() {
    let mut s = polling_with_timer(4);
    assert_eq!(s.tick(2), Action::Prompt);
    assert_eq!(s.abandon(), Action::Wait);
    assert_eq!(s.phase(), Phase::Polling);
    assert_eq!(s.abandon(), Action::Ignore);
}

#[test]
fn transport_failure_aborts() {
    let mut s = polling_with_timer(4);
    assert_eq!(s.transport_failed(), Action::Abort);
    assert_eq!(s.phase(), Phase::Failed);
    assert_eq!(s.tick(1), Action::Ignore);
}

#[test]
fn cancel_timer_twice_is_harmless() {
    let mut s = polling_with_timer(8);
    assert_eq!(s.cancel_timer(), Some(8));
    assert_eq!(s.cancel_timer(), None);
    assert_eq!(s.phase(), Phase::Polling);
}

#[test]
fn connect_outcome_outside_attempt_is_ignored() {
    let mut s = polling_with_timer(8);
    assert_eq!(s.connect_outcome(true), Action::Ignore);
    assert_eq!(s.answer(Some("0".to_string())), Action::Ignore);
    assert_eq!(s.phase(), Phase::Polling);
}

#[test]
fn timer_registered_after_end_is_stopped() {
    let mut s = Scheduler::new();
    assert_eq!(s.timer_started(Some(11)), Action::StopTimer { token: Some(11) });
    assert_eq!(s.timer_token(), None);
}
