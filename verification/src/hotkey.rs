//! Hotkey trigger detector: two gesture recognizers (press-and-hold and
//! double-tap) that turn raw key events into trigger intents. Each is a pure
//! state machine over the event stream and wall-clock timestamps; neither
//! depends on audio or transcription state.

use vstd::prelude::*;
use crate::models::AppSettings;

verus! {

/// A raw key event of the configured hotkey, with its wall-clock timestamp.
#[derive(Debug, Clone, Copy, PartialEq, Eq, Structural)]
pub enum KeyEventKind {
    Down,
    Up,
}

#[derive(Debug, Clone, Copy, PartialEq, Eq, Structural)]
pub struct KeyEvent {
    pub kind: KeyEventKind,
    pub at_ms: u64,
}

/// What a recognized gesture asks of the dictation controller.
#[derive(Debug, Clone, Copy, PartialEq, Eq, Structural)]
pub enum TriggerIntent {
    Start,
    Stop,
    Cancel,
}

/// Press-and-hold recognizer: `Start` on key-down; on key-up, `Stop` if the
/// key was held at least the debounce duration, `Cancel` otherwise (an
/// accidental tap must not stop and deliver a session).
#[derive(Debug, Clone, Copy, PartialEq, Eq, Structural)]
pub struct PressAndHold {
    pub debounce_ms: u64,
    pub held_since: Option<u64>,
}

impl PressAndHold {
    /// How long the key was held, treating a clock that ran backwards as a
    /// zero-length hold.
    pub open spec fn spec_held_for(down_at: u64, up_at: u64) -> u64 {
        if up_at >= down_at {
            (up_at - down_at) as u64
        } else {
            0
        }
    }

    /// The recognizer's transition function: successor state and emitted
    /// intent for one key event.
    pub open spec fn spec_step(self, e: KeyEvent) -> (PressAndHold, Option<TriggerIntent>) {
        match e.kind {
            KeyEventKind::Down => match self.held_since {
                None => (
                    PressAndHold { held_since: Some(e.at_ms), ..self },
                    Some(TriggerIntent::Start),
                ),
                // key auto-repeat while already held is not a new gesture
                Some(_) => (self, None),
            },
            KeyEventKind::Up => match self.held_since {
                Some(t0) => if Self::spec_held_for(t0, e.at_ms) >= self.debounce_ms {
                    (PressAndHold { held_since: None, ..self }, Some(TriggerIntent::Stop))
                } else {
                    (PressAndHold { held_since: None, ..self }, Some(TriggerIntent::Cancel))
                },
                None => (self, None),
            },
        }
    }

    pub fn new(debounce_ms: u64) -> (r: Self)
        ensures
            r.debounce_ms == debounce_ms,
            r.held_since is None,
    {
        PressAndHold { debounce_ms, held_since: None }
    }

    /// Feed one key event; the result is exactly what the transition function
    /// prescribes.
    pub fn on_event(&mut self, e: KeyEvent) -> (r: Option<TriggerIntent>)
        ensures
            (*final(self), r) == old(self).spec_step(e),
    {
        match e.kind {
            KeyEventKind::Down => {
                if self.held_since.is_none() {
                    self.held_since = Some(e.at_ms);
                    Some(TriggerIntent::Start)
                } else {
                    None
                }
            },
            KeyEventKind::Up => {
                match self.held_since {
                    Some(t0) => {
                        let held: u64 = if e.at_ms >= t0 {
                            e.at_ms - t0
                        } else {
                            0
                        };
                        self.held_since = None;
                        if held >= self.debounce_ms {
                            Some(TriggerIntent::Stop)
                        } else {
                            Some(TriggerIntent::Cancel)
                        }
                    },
                    None => None,
                }
            },
        }
    }
}

/// A key-up before the debounce threshold yields `Cancel`, never `Stop`, for
/// every hold duration below the threshold.
pub proof fn lemma_short_hold_cancels(s: PressAndHold, down_at: u64, up_at: u64)
    requires
        s.held_since == Some(down_at),
        PressAndHold::spec_held_for(down_at, up_at) < s.debounce_ms,
    ensures
        s.spec_step((KeyEvent { kind: KeyEventKind::Up, at_ms: up_at })).1 == Some(
            TriggerIntent::Cancel,
        ),
        s.spec_step((KeyEvent { kind: KeyEventKind::Up, at_ms: up_at })).0.held_since is None,
{
}

/// A key-up at or past the debounce threshold yields `Stop`.
pub proof fn lemma_long_hold_stops(s: PressAndHold, down_at: u64, up_at: u64)
    requires
        s.held_since == Some(down_at),
        PressAndHold::spec_held_for(down_at, up_at) >= s.debounce_ms,
    ensures
        s.spec_step((KeyEvent { kind: KeyEventKind::Up, at_ms: up_at })).1 == Some(
            TriggerIntent::Stop,
        ),
{
}

/// Where the double-tap recognizer stands in the current tap sequence.
#[derive(Debug, Clone, Copy, PartialEq, Eq, Structural)]
pub enum TapPhase {
    /// No tap sequence in progress.
    Rest,
    /// First key-down seen; waiting for its key-up.
    FirstDown { down_at: u64 },
    /// One complete tap; a second key-down within the window triggers.
    Pending { up_at: u64 },
    /// Just emitted an intent; further taps within the window are ignored.
    Cooling { emitted_at: u64 },
}

/// Double-tap recognizer: `Start` on the second key-down within the window
/// after the first tap's key-up; extra taps within the window after emitting
/// are ignored; a tap outside the window starts a fresh sequence; while a
/// session is active the next qualifying double tap emits `Stop`.
#[derive(Debug, Clone, Copy, PartialEq, Eq, Structural)]
pub struct DoubleTap {
    pub window_ms: u64,
    pub phase: TapPhase,
    pub active: bool,
}

impl DoubleTap {
    /// The gap between two timestamps, zero if the clock ran backwards.
    pub open spec fn spec_gap(earlier: u64, later: u64) -> u64 {
        if later >= earlier {
            (later - earlier) as u64
        } else {
            0
        }
    }

    /// The recognizer's transition function: successor state and emitted
    /// intent for one key event.
    pub open spec fn spec_step(self, e: KeyEvent) -> (DoubleTap, Option<TriggerIntent>) {
        match e.kind {
            KeyEventKind::Down => match self.phase {
                TapPhase::Rest => (
                    DoubleTap { phase: TapPhase::FirstDown { down_at: e.at_ms }, ..self },
                    None,
                ),
                TapPhase::FirstDown { .. } => (self, None),
                TapPhase::Pending { up_at } => if Self::spec_gap(up_at, e.at_ms)
                    <= self.window_ms {
                    (
                        DoubleTap {
                            phase: TapPhase::Cooling { emitted_at: e.at_ms },
                            active: !self.active,
                            ..self
                        },
                        if self.active {
                            Some(TriggerIntent::Stop)
                        } else {
                            Some(TriggerIntent::Start)
                        },
                    )
                } else {
                    (DoubleTap { phase: TapPhase::FirstDown { down_at: e.at_ms }, ..self }, None)
                },
                TapPhase::Cooling { emitted_at } => if Self::spec_gap(emitted_at, e.at_ms)
                    <= self.window_ms {
                    (self, None)
                } else {
                    (DoubleTap { phase: TapPhase::FirstDown { down_at: e.at_ms }, ..self }, None)
                },
            },
            KeyEventKind::Up => match self.phase {
                TapPhase::FirstDown { .. } => (
                    DoubleTap { phase: TapPhase::Pending { up_at: e.at_ms }, ..self },
                    None,
                ),
                _ => (self, None),
            },
        }
    }

    pub fn new(window_ms: u64) -> (r: Self)
        ensures
            r.window_ms == window_ms,
            r.phase is Rest,
            !r.active,
    {
        DoubleTap { window_ms, phase: TapPhase::Rest, active: false }
    }

    /// Feed one key event; the result is exactly what the transition function
    /// prescribes.
    pub fn on_event(&mut self, e: KeyEvent) -> (r: Option<TriggerIntent>)
        ensures
            (*final(self), r) == old(self).spec_step(e),
    {
        match e.kind {
            KeyEventKind::Down => {
                match self.phase {
                    TapPhase::Rest => {
                        self.phase = TapPhase::FirstDown { down_at: e.at_ms };
                        None
                    },
                    TapPhase::FirstDown { .. } => None,
                    TapPhase::Pending { up_at } => {
                        let gap: u64 = if e.at_ms >= up_at {
                            e.at_ms - up_at
                        } else {
                            0
                        };
                        if gap <= self.window_ms {
                            self.phase = TapPhase::Cooling { emitted_at: e.at_ms };
                            if self.active {
                                self.active = false;
                                Some(TriggerIntent::Stop)
                            } else {
                                self.active = true;
                                Some(TriggerIntent::Start)
                            }
                        } else {
                            self.phase = TapPhase::FirstDown { down_at: e.at_ms };
                            None
                        }
                    },
                    TapPhase::Cooling { emitted_at } => {
                        let gap: u64 = if e.at_ms >= emitted_at {
                            e.at_ms - emitted_at
                        } else {
                            0
                        };
                        if gap <= self.window_ms {
                            None
                        } else {
                            self.phase = TapPhase::FirstDown { down_at: e.at_ms };
                            None
                        }
                    },
                }
            },
            KeyEventKind::Up => {
                match self.phase {
                    TapPhase::FirstDown { .. } => {
                        self.phase = TapPhase::Pending { up_at: e.at_ms };
                        None
                    },
                    _ => None,
                }
            },
        }
    }
}

/// Two taps whose second key-down falls within the window after the first
/// key-up yield exactly one `Start` (when no session is active).
pub proof fn lemma_double_tap_starts(s: DoubleTap, up_at: u64, down_at: u64)
    requires
        s.phase == (TapPhase::Pending { up_at }),
        !s.active,
        DoubleTap::spec_gap(up_at, down_at) <= s.window_ms,
    ensures
        s.spec_step((KeyEvent { kind: KeyEventKind::Down, at_ms: down_at })).1 == Some(
            TriggerIntent::Start,
        ),
        s.spec_step((KeyEvent { kind: KeyEventKind::Down, at_ms: down_at })).0.phase == (
        TapPhase::Cooling { emitted_at: down_at }),
        s.spec_step((KeyEvent { kind: KeyEventKind::Down, at_ms: down_at })).0.active,
{
}

/// A further tap within the window after an emitted intent is a no-op: no
/// intent is emitted and the recognizer's state does not change.
pub proof fn lemma_extra_tap_ignored(s: DoubleTap, emitted_at: u64, down_at: u64)
    requires
        s.phase == (TapPhase::Cooling { emitted_at }),
        DoubleTap::spec_gap(emitted_at, down_at) <= s.window_ms,
    ensures
        s.spec_step((KeyEvent { kind: KeyEventKind::Down, at_ms: down_at })) == (s, None::<
            TriggerIntent,
        >),
{
}

/// A key-down outside the window starts a fresh, independent tap sequence and
/// emits nothing.
pub proof fn lemma_late_tap_fresh(s: DoubleTap, down_at: u64)
    requires
        match s.phase {
            TapPhase::Pending { up_at } => DoubleTap::spec_gap(up_at, down_at) > s.window_ms,
            TapPhase::Cooling { emitted_at } => DoubleTap::spec_gap(emitted_at, down_at)
                > s.window_ms,
            _ => false,
        },
    ensures
        s.spec_step((KeyEvent { kind: KeyEventKind::Down, at_ms: down_at })).1 is None,
        s.spec_step((KeyEvent { kind: KeyEventKind::Down, at_ms: down_at })).0.phase == (
        TapPhase::FirstDown { down_at }),
{
}

/// Which gesture recognizer the settings select.
#[derive(Debug, Clone, Copy, PartialEq, Eq, Structural)]
pub enum GestureMode {
    PressAndHold,
    DoubleTap,
}

/// Read the gesture spec out of the settings: a hotkey of `"double_tap"`
/// selects the double-tap recognizer; anything else falls back to
/// press-and-hold, the default gesture.
pub fn gesture_mode_of_settings(settings: &AppSettings) -> (r: GestureMode)
    ensures
        settings.recording_hotkey@ == "double_tap"@ ==> r is DoubleTap,
        settings.recording_hotkey@ != "double_tap"@ ==> r is PressAndHold,
{
    let double_tap_spec = String::from_str("double_tap");
    if settings.recording_hotkey == double_tap_spec {
        GestureMode::DoubleTap
    } else {
        GestureMode::PressAndHold
    }
}

/// The hotkey detector: one recognizer active at a time, selected by
/// configuration; the inactive recognizer's state is left untouched.
#[derive(Debug, Clone, Copy, PartialEq, Eq, Structural)]
pub struct HotkeyManager {
    pub mode: GestureMode,
    pub hold: PressAndHold,
    pub tap: DoubleTap,
}

impl HotkeyManager {
    pub fn new(mode: GestureMode, debounce_ms: u64, window_ms: u64) -> (r: Self)
        ensures
            r.mode == mode,
            r.hold == (PressAndHold { debounce_ms, held_since: None }),
            r.tap == (DoubleTap { window_ms, phase: TapPhase::Rest, active: false }),
    {
        HotkeyManager {
            mode,
            hold: PressAndHold::new(debounce_ms),
            tap: DoubleTap::new(window_ms),
        }
    }

    /// Feed one key event to the configured recognizer.
    pub fn on_key_event(&mut self, e: KeyEvent) -> (r: Option<TriggerIntent>)
        ensures
            old(self).mode is PressAndHold ==> (final(self).hold, r) == old(self).hold.spec_step(e)
                && final(self).tap == old(self).tap,
            old(self).mode is DoubleTap ==> (final(self).tap, r) == old(self).tap.spec_step(e)
                && final(self).hold == old(self).hold,
            final(self).mode == old(self).mode,
    {
        match self.mode {
            GestureMode::PressAndHold => self.hold.on_event(e),
            GestureMode::DoubleTap => self.tap.on_event(e),
        }
    }
}

} // verus!
