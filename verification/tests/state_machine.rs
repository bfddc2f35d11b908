use pomodoro::timer::{
    background_for, BackgroundColor, Durations, Phase, RenderContent, TimerState,
};

fn fresh() -> (TimerState, Durations) {
    (TimerState::new(), Durations::default())
}

#[test]
fn new_timer_is_idle_with_focus_next() {
    let (s, _) = fresh();
    assert_eq!(s.current_phase, Phase::Idle);
    assert_eq!(s.next_phase, Phase::Focus);
    assert_eq!(s.focus_cycles_completed, 0);
}

#[test]
fn default_durations_are_the_standard_schedule() {
    let d = Durations::default();
    assert_eq!(d.focus_duration, 1500);
    assert_eq!(d.break_duration, 300);
    assert_eq!(d.long_break_duration, 900);
}

#[test]
fn start_action_begins_focus_at_the_start_instant() {
    let (mut s, d) = fresh();
    s.frame_update(&d, 100, true);
    assert_eq!(s.current_phase, Phase::Focus);
    assert_eq!(s.phase_start_time, 100);
    assert_eq!(s.next_phase, Phase::Focus);
    assert_eq!(s.focus_cycles_completed, 0);
}

#[test]
fn focus_completion_schedules_break_and_counts_one_cycle() {
    let (mut s, d) = fresh();
    s.frame_update(&d, 0, true);
    let info = s.frame_update(&d, 1500, false);
    assert_eq!(s.current_phase, Phase::Idle);
    assert_eq!(s.next_phase, Phase::Break);
    assert_eq!(s.focus_cycles_completed, 1);
    // The expiry frame still renders the focus countdown, now at zero.
    assert_eq!(info.background, BackgroundColor::Red);
    assert_eq!(info.content, RenderContent::Countdown { remaining: 0 });
}

#[test]
fn fourth_focus_completion_schedules_the_long_break() {
    let (mut s, d) = fresh();
    let mut now: u64 = 0;
    for round in 0..4u64 {
        assert_eq!(s.next_phase, Phase::Focus);
        s.frame_update(&d, now, true);
        now += 1500;
        s.frame_update(&d, now, false);
        if round < 3 {
            assert_eq!(s.next_phase, Phase::Break);
            assert_eq!(s.focus_cycles_completed, round as u8 + 1);
            s.frame_update(&d, now, true);
            now += 300;
            s.frame_update(&d, now, false);
            assert_eq!(s.next_phase, Phase::Focus);
        }
    }
    assert_eq!(s.current_phase, Phase::Idle);
    assert_eq!(s.next_phase, Phase::LongBreak);
    assert_eq!(s.focus_cycles_completed, 0);
}

#[test]
fn break_completion_schedules_focus() {
    let (mut s, d) = fresh();
    s.next_phase = Phase::Break;
    s.frame_update(&d, 0, true);
    s.frame_update(&d, 300, false);
    assert_eq!(s.current_phase, Phase::Idle);
    assert_eq!(s.next_phase, Phase::Focus);
}

#[test]
fn long_break_completion_schedules_focus() {
    let (mut s, d) = fresh();
    s.next_phase = Phase::LongBreak;
    s.frame_update(&d, 50, true);
    s.frame_update(&d, 50 + 900, false);
    assert_eq!(s.current_phase, Phase::Idle);
    assert_eq!(s.next_phase, Phase::Focus);
}

#[test]
fn frames_without_input_or_elapsed_time_change_nothing() {
    let (mut s, d) = fresh();
    let before_idle = s;
    for _ in 0..10 {
        s.frame_update(&d, 999, false);
        assert_eq!(s, before_idle);
    }
    s.frame_update(&d, 42, true);
    let running = s;
    for _ in 0..10 {
        s.frame_update(&d, 42, false);
        assert_eq!(s, running);
    }
}

#[test]
fn expiry_fires_exactly_at_the_duration() {
    let (mut s, d) = fresh();
    s.frame_update(&d, 1000, true);
    // One second early: still counting, one second left.
    let info = s.frame_update(&d, 1000 + 1499, false);
    assert_eq!(s.current_phase, Phase::Focus);
    assert_eq!(info.content, RenderContent::Countdown { remaining: 1 });
    // Exactly at the duration: the phase flips.
    s.frame_update(&d, 1000 + 1500, false);
    assert_eq!(s.current_phase, Phase::Idle);
}

#[test]
fn remaining_time_counts_down_from_the_duration() {
    let (mut s, d) = fresh();
    s.frame_update(&d, 0, true);
    let info = s.frame_update(&d, 600, false);
    assert_eq!(info.content, RenderContent::Countdown { remaining: 900 });
}

#[test]
fn clock_moving_backward_is_clamped_not_a_transition() {
    let (mut s, d) = fresh();
    s.frame_update(&d, 5000, true);
    let info = s.frame_update(&d, 10, false);
    assert_eq!(s.current_phase, Phase::Focus);
    assert_eq!(info.content, RenderContent::Countdown { remaining: 1500 });
}

#[test]
fn idle_frame_renders_gray_with_the_next_phase() {
    let (mut s, d) = fresh();
    let info = s.frame_update(&d, 0, false);
    assert_eq!(info.background, BackgroundColor::DarkGray);
    assert_eq!(info.content, RenderContent::NextUp { next: Phase::Focus });
}

#[test]
fn each_phase_has_its_background() {
    assert_eq!(background_for(Phase::Idle), BackgroundColor::DarkGray);
    assert_eq!(background_for(Phase::Focus), BackgroundColor::Red);
    assert_eq!(background_for(Phase::Break), BackgroundColor::Blue);
    assert_eq!(background_for(Phase::LongBreak), BackgroundColor::DarkBlue);
}

#[test]
fn running_phases_render_their_own_background() {
    let (mut s, d) = fresh();
    s.next_phase = Phase::Break;
    s.frame_update(&d, 0, true);
    let info = s.frame_update(&d, 1, false);
    assert_eq!(info.background, BackgroundColor::Blue);
    let (mut s2, _) = fresh();
    s2.next_phase = Phase::LongBreak;
    s2.frame_update(&d, 0, true);
    let info2 = s2.frame_update(&d, 1, false);
    assert_eq!(info2.background, BackgroundColor::DarkBlue);
}
