//! The Pomodoro state machine: phases, durations, the per-frame transition
//! rule, and the laws that hold of it.
//!
//! The machine counts down a focus phase, a short break, or a long break, or
//! sits idle waiting for the user to start the next phase. Expiry is judged
//! from absolute wall-clock seconds, never from per-frame deltas, so a late
//! frame checks late but never incorrectly.

use vstd::prelude::*;

verus! {

/// What the countdown (if any) currently measures. `Idle` means no countdown
/// is active and the timer is waiting for the user to start the next phase.
#[derive(Clone, Copy, PartialEq, Eq, Structural, Debug)]
pub enum Phase {
    Focus,
    Break,
    LongBreak,
    Idle,
}

/// Immutable configuration: the length of each countdown phase, in seconds.
#[derive(Clone, Copy, PartialEq, Eq, Structural, Debug)]
pub struct Durations {
    pub focus_duration: u64,
    pub break_duration: u64,
    pub long_break_duration: u64,
}

impl Durations {
    /// Every phase lasts at least one second; a zero-length phase would
    /// expire on the very frame it starts.
    pub open spec fn wf(self) -> bool {
        self.focus_duration > 0 && self.break_duration > 0 && self.long_break_duration > 0
    }

    /// How many seconds the given phase runs before it expires.
    pub open spec fn spec_duration_for(self, phase: Phase) -> u64
        recommends
            phase != Phase::Idle,
    {
        match phase {
            Phase::Focus => self.focus_duration,
            Phase::Break => self.break_duration,
            Phase::LongBreak => self.long_break_duration,
            Phase::Idle => 0,
        }
    }

    /// How many seconds the given phase runs before it expires.
    pub fn duration_for(&self, phase: Phase) -> (d: u64)
        requires
            phase != Phase::Idle,
        ensures
            d == self.spec_duration_for(phase),
    {
        match phase {
            Phase::Focus => self.focus_duration,
            Phase::Break => self.break_duration,
            Phase::LongBreak => self.long_break_duration,
            Phase::Idle => 0,
        }
    }
}

impl Default for Durations {
    /// The standard schedule: 25 minutes of focus, 5 of break, 15 of long break.
    fn default() -> (d: Durations)
        ensures
            d.focus_duration == 1500,
            d.break_duration == 300,
            d.long_break_duration == 900,
            d.wf(),
    {
        Durations { focus_duration: 1500, break_duration: 300, long_break_duration: 900 }
    }
}

/// How many focus phases must complete before a long break is scheduled.
pub const FOCUS_CYCLES_PER_LONG_BREAK: u8 = 4;

/// The whole mutable state of the timer.
#[derive(Clone, Copy, PartialEq, Eq, Structural, Debug)]
pub struct TimerState {
    /// What is being counted now; `Idle` means no countdown is active.
    pub current_phase: Phase,
    /// What will start when the user next starts a countdown; never `Idle`.
    pub next_phase: Phase,
    /// Completed focus phases since the last long break was scheduled.
    pub focus_cycles_completed: u8,
    /// Wall-clock second at which `current_phase` became active; meaningful
    /// only while `current_phase != Idle`.
    pub phase_start_time: u64,
}

/// Whole seconds since `phase_start`, clamped to zero if the host clock was
/// adjusted backward.
pub open spec fn spec_elapsed(phase_start: u64, now: u64) -> u64 {
    if now >= phase_start {
        (now - phase_start) as u64
    } else {
        0u64
    }
}

/// Whole seconds since `phase_start`, clamped to zero if the host clock was
/// adjusted backward.
pub fn elapsed_seconds(phase_start: u64, now: u64) -> (e: u64)
    ensures
        e == spec_elapsed(phase_start, now),
{
    if now >= phase_start {
        now - phase_start
    } else {
        0
    }
}

/// Seconds left in the active phase, clamped to zero once it has expired.
pub open spec fn spec_remaining(s: TimerState, d: Durations, now: u64) -> u64
    recommends
        s.current_phase != Phase::Idle,
{
    let dur = d.spec_duration_for(s.current_phase);
    let e = spec_elapsed(s.phase_start_time, now);
    if e >= dur {
        0u64
    } else {
        (dur - e) as u64
    }
}

/// The start action: the chosen next phase becomes active now.
pub open spec fn spec_start(s: TimerState, now: u64) -> TimerState {
    TimerState {
        current_phase: s.next_phase,
        next_phase: s.next_phase,
        focus_cycles_completed: s.focus_cycles_completed,
        phase_start_time: now,
    }
}

/// The expiry rule, applied once per frame to a running timer.
///
/// A running phase whose elapsed time has reached its duration flips to
/// `Idle`. A completed focus phase counts toward the long break: the fourth
/// completion schedules `LongBreak` and resets the count, earlier ones
/// schedule `Break`. A completed break of either kind schedules `Focus`.
/// Anything else is left untouched.
pub open spec fn spec_tick(s: TimerState, d: Durations, now: u64) -> TimerState {
    if s.current_phase == Phase::Idle {
        s
    } else if spec_elapsed(s.phase_start_time, now) >= d.spec_duration_for(s.current_phase) {
        match s.current_phase {
            Phase::Focus => {
                if s.focus_cycles_completed + 1 >= FOCUS_CYCLES_PER_LONG_BREAK {
                    TimerState {
                        current_phase: Phase::Idle,
                        next_phase: Phase::LongBreak,
                        focus_cycles_completed: 0,
                        phase_start_time: s.phase_start_time,
                    }
                } else {
                    TimerState {
                        current_phase: Phase::Idle,
                        next_phase: Phase::Break,
                        focus_cycles_completed: (s.focus_cycles_completed + 1) as u8,
                        phase_start_time: s.phase_start_time,
                    }
                }
            },
            _ => TimerState {
                current_phase: Phase::Idle,
                next_phase: Phase::Focus,
                focus_cycles_completed: s.focus_cycles_completed,
                phase_start_time: s.phase_start_time,
            },
        }
    } else {
        s
    }
}

/// One whole frame of the state machine: an idle timer starts its next phase
/// when the user asks for it, a running timer is checked for expiry.
pub open spec fn spec_frame(s: TimerState, d: Durations, now: u64, start_requested: bool) -> TimerState {
    if s.current_phase == Phase::Idle {
        if start_requested {
            spec_start(s, now)
        } else {
            s
        }
    } else {
        spec_tick(s, d, now)
    }
}

/// The background fill each phase is rendered over.
#[derive(Clone, Copy, PartialEq, Eq, Structural, Debug)]
pub enum BackgroundColor {
    DarkGray,
    Red,
    Blue,
    DarkBlue,
}

/// What the center of the screen shows this frame: either the countdown of a
/// running phase, or, while idle, which phase would start next.
#[derive(Clone, Copy, PartialEq, Eq, Structural, Debug)]
pub enum RenderContent {
    Countdown { remaining: u64 },
    NextUp { next: Phase },
}

/// Everything the front end needs to draw one frame.
#[derive(Clone, Copy, PartialEq, Eq, Structural, Debug)]
pub struct RenderInfo {
    pub background: BackgroundColor,
    pub content: RenderContent,
}

/// The rendering table: idle frames are gray, focus is red, the short break
/// blue, the long break dark blue.
pub open spec fn spec_background(phase: Phase) -> BackgroundColor {
    match phase {
        Phase::Idle => BackgroundColor::DarkGray,
        Phase::Focus => BackgroundColor::Red,
        Phase::Break => BackgroundColor::Blue,
        Phase::LongBreak => BackgroundColor::DarkBlue,
    }
}

/// The rendering table: idle frames are gray, focus is red, the short break
/// blue, the long break dark blue.
pub fn background_for(phase: Phase) -> (b: BackgroundColor)
    ensures
        b == spec_background(phase),
{
    match phase {
        Phase::Idle => BackgroundColor::DarkGray,
        Phase::Focus => BackgroundColor::Red,
        Phase::Break => BackgroundColor::Blue,
        Phase::LongBreak => BackgroundColor::DarkBlue,
    }
}

impl TimerState {
    /// `next_phase` is never `Idle`, and the cycle count stays below the
    /// long-break threshold.
    pub open spec fn wf(self) -> bool {
        self.next_phase != Phase::Idle && self.focus_cycles_completed
            < FOCUS_CYCLES_PER_LONG_BREAK
    }

    /// A fresh timer: idle, with a focus phase up next and no completed cycles.
    pub fn new() -> (s: TimerState)
        ensures
            s.current_phase == Phase::Idle,
            s.next_phase == Phase::Focus,
            s.focus_cycles_completed == 0,
            s.wf(),
    {
        TimerState {
            current_phase: Phase::Idle,
            next_phase: Phase::Focus,
            focus_cycles_completed: 0,
            phase_start_time: 0,
        }
    }

    /// Seconds left in the active phase, clamped to zero once it has expired.
    pub fn remaining(&self, d: &Durations, now: u64) -> (r: u64)
        requires
            self.current_phase != Phase::Idle,
        ensures
            r == spec_remaining(*self, *d, now),
    {
        let dur = d.duration_for(self.current_phase);
        let e = elapsed_seconds(self.phase_start_time, now);
        if e >= dur {
            0
        } else {
            dur - e
        }
    }

    /// The start action: the chosen next phase becomes active, and its
    /// countdown is anchored at `now`.
    pub fn start(&mut self, now: u64)
        requires
            old(self).wf(),
            old(self).current_phase == Phase::Idle,
        ensures
            *final(self) == spec_start(*old(self), now),
            final(self).wf(),
    {
        self.current_phase = self.next_phase;
        self.phase_start_time = now;
    }

    /// Apply the expiry rule for the current frame.
    pub fn tick(&mut self, d: &Durations, now: u64)
        requires
            old(self).wf(),
        ensures
            *final(self) == spec_tick(*old(self), *d, now),
            final(self).wf(),
    {
        if self.current_phase == Phase::Idle {
            return;
        }
        let dur = d.duration_for(self.current_phase);
        let e = elapsed_seconds(self.phase_start_time, now);
        if e >= dur {
            match self.current_phase {
                Phase::Focus => {
                    self.current_phase = Phase::Idle;
                    if self.focus_cycles_completed + 1 >= FOCUS_CYCLES_PER_LONG_BREAK {
                        self.next_phase = Phase::LongBreak;
                        self.focus_cycles_completed = 0;
                    } else {
                        self.next_phase = Phase::Break;
                        self.focus_cycles_completed = self.focus_cycles_completed + 1;
                    }
                },
                _ => {
                    self.current_phase = Phase::Idle;
                    self.next_phase = Phase::Focus;
                },
            }
        }
    }

    /// One whole frame: advance the state machine and say what to draw.
    ///
    /// The frame is rendered from the state as it stood when the frame began,
    /// so the frame on which a phase expires still shows that phase's
    /// background with a countdown of zero; the idle screen appears on the
    /// frame after.
    pub fn frame_update(&mut self, d: &Durations, now: u64, start_requested: bool) -> (r:
        RenderInfo)
        requires
            old(self).wf(),
        ensures
            *final(self) == spec_frame(*old(self), *d, now, start_requested),
            final(self).wf(),
            r.background == spec_background(old(self).current_phase),
            old(self).current_phase == Phase::Idle ==> r.content == (RenderContent::NextUp {
                next: old(self).next_phase,
            }),
            old(self).current_phase != Phase::Idle ==> r.content == (RenderContent::Countdown {
                remaining: spec_remaining(*old(self), *d, now),
            }),
    {
        let background = background_for(self.current_phase);
        if self.current_phase == Phase::Idle {
            let content = RenderContent::NextUp { next: self.next_phase };
            if start_requested {
                self.start(now);
            }
            RenderInfo { background, content }
        } else {
            let content = RenderContent::Countdown { remaining: self.remaining(d, now) };
            self.tick(d, now);
            RenderInfo { background, content }
        }
    }
}

/// A running phase flips to `Idle` exactly when its remaining time reaches
/// zero, that is, exactly when the elapsed time has reached the phase's
/// duration — never before. Until then the remaining time is exactly the
/// duration less the elapsed time, and the expiry rule changes nothing.
pub proof fn lemma_expiry_is_exact(s: TimerState, d: Durations, now: u64)
    requires
        s.wf(),
        s.current_phase != Phase::Idle,
    ensures
        spec_remaining(s, d, now) == 0 <==> spec_elapsed(s.phase_start_time, now)
            >= d.spec_duration_for(s.current_phase),
        spec_tick(s, d, now).current_phase == Phase::Idle <==> spec_remaining(s, d, now) == 0,
        spec_remaining(s, d, now) > 0 ==> spec_tick(s, d, now) == s,
        spec_remaining(s, d, now) > 0 ==> spec_remaining(s, d, now) == d.spec_duration_for(
            s.current_phase,
        ) - spec_elapsed(s.phase_start_time, now),
{
}

/// The start action makes the scheduled phase current, anchors its countdown
/// at the instant of the action, and touches nothing else.
pub proof fn lemma_start_begins_next_phase(s: TimerState, now: u64)
    requires
        s.wf(),
        s.current_phase == Phase::Idle,
    ensures
        spec_start(s, now).current_phase == s.next_phase,
        spec_start(s, now).phase_start_time == now,
        spec_start(s, now).next_phase == s.next_phase,
        spec_start(s, now).focus_cycles_completed == s.focus_cycles_completed,
        spec_start(s, now).wf(),
{
}

/// Completing a focus phase counts toward the long break: each of the first
/// three completions schedules a short break and raises the count by one; the
/// fourth schedules the long break and resets the count to zero.
pub proof fn lemma_focus_completion_bookkeeping(s: TimerState, d: Durations, now: u64)
    requires
        s.wf(),
        s.current_phase == Phase::Focus,
        spec_elapsed(s.phase_start_time, now) >= d.focus_duration,
    ensures
        spec_tick(s, d, now).current_phase == Phase::Idle,
        s.focus_cycles_completed < FOCUS_CYCLES_PER_LONG_BREAK - 1 ==> spec_tick(
            s,
            d,
            now,
        ).next_phase == Phase::Break && spec_tick(s, d, now).focus_cycles_completed
            == s.focus_cycles_completed + 1,
        s.focus_cycles_completed == FOCUS_CYCLES_PER_LONG_BREAK - 1 ==> spec_tick(
            s,
            d,
            now,
        ).next_phase == Phase::LongBreak && spec_tick(s, d, now).focus_cycles_completed == 0,
{
}

/// Completing a break of either kind unconditionally schedules a focus phase
/// and leaves the cycle count alone.
pub proof fn lemma_rest_returns_to_focus(s: TimerState, d: Durations, now: u64)
    requires
        s.wf(),
        s.current_phase == Phase::Break || s.current_phase == Phase::LongBreak,
        spec_elapsed(s.phase_start_time, now) >= d.spec_duration_for(s.current_phase),
    ensures
        spec_tick(s, d, now).current_phase == Phase::Idle,
        spec_tick(s, d, now).next_phase == Phase::Focus,
        spec_tick(s, d, now).focus_cycles_completed == s.focus_cycles_completed,
{
}

/// A frame on which no time has passed and no start was requested changes
/// nothing, so repeating such frames is idempotent.
pub proof fn lemma_frame_idempotent(s: TimerState, d: Durations, now: u64)
    requires
        s.wf(),
        d.wf(),
        s.current_phase != Phase::Idle ==> now == s.phase_start_time,
    ensures
        spec_frame(s, d, now, false) == s,
{
}

/// Starting the scheduled phase and letting it run to expiry, as one spec
/// value: the state after a whole completed phase.
pub open spec fn spec_completed_phase(s: TimerState, d: Durations, t_start: u64, t_end: u64)
    -> TimerState {
    spec_tick(spec_start(s, t_start), d, t_end)
}

/// Four focus phases, each followed by the short break it earned, run to
/// completion from a fresh timer: the cycle count climbs 1, 2, 3 through the
/// first three completions, each of which schedules a short break, and the
/// fourth completion schedules the long break and resets the count to zero.
///
/// Each phase is described by the second it was started (`..s`) and a second
/// at which its expiry was observed (`..e`).
pub proof fn lemma_focus_cycle_progression(
    s0: TimerState,
    d: Durations,
    f1s: u64,
    f1e: u64,
    b1s: u64,
    b1e: u64,
    f2s: u64,
    f2e: u64,
    b2s: u64,
    b2e: u64,
    f3s: u64,
    f3e: u64,
    b3s: u64,
    b3e: u64,
    f4s: u64,
    f4e: u64,
)
    requires
        s0.current_phase == Phase::Idle,
        s0.next_phase == Phase::Focus,
        s0.focus_cycles_completed == 0,
        spec_elapsed(f1s, f1e) >= d.focus_duration,
        spec_elapsed(b1s, b1e) >= d.break_duration,
        spec_elapsed(f2s, f2e) >= d.focus_duration,
        spec_elapsed(b2s, b2e) >= d.break_duration,
        spec_elapsed(f3s, f3e) >= d.focus_duration,
        spec_elapsed(b3s, b3e) >= d.break_duration,
        spec_elapsed(f4s, f4e) >= d.focus_duration,
    ensures
        ({
            let s1 = spec_completed_phase(s0, d, f1s, f1e);
            let s2 = spec_completed_phase(s1, d, b1s, b1e);
            let s3 = spec_completed_phase(s2, d, f2s, f2e);
            let s4 = spec_completed_phase(s3, d, b2s, b2e);
            let s5 = spec_completed_phase(s4, d, f3s, f3e);
            let s6 = spec_completed_phase(s5, d, b3s, b3e);
            let s7 = spec_completed_phase(s6, d, f4s, f4e);
            s1.next_phase == Phase::Break && s1.focus_cycles_completed == 1 && s2.next_phase
                == Phase::Focus && s2.focus_cycles_completed == 1 && s3.next_phase == Phase::Break
                && s3.focus_cycles_completed == 2 && s4.next_phase == Phase::Focus
                && s4.focus_cycles_completed == 2 && s5.next_phase == Phase::Break
                && s5.focus_cycles_completed == 3 && s6.next_phase == Phase::Focus
                && s6.focus_cycles_completed == 3 && s7.next_phase == Phase::LongBreak
                && s7.focus_cycles_completed == 0
        }),
{
}

} // verus!
