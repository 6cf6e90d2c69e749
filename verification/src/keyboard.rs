//! The keyboard state machine: focus tracking, modifier caching and
//! key-repeat scheduling.
//!
//! A key press emits a key-down and arms a one-shot repeat timer at the
//! compositor's repeat delay, replacing any timer already armed. Each
//! firing while the same key is still current emits a synthetic repeating
//! key-down and re-arms after the repeat gap. A release, a focus change or
//! a repeat-rate change to zero clears the current key, so the next firing
//! emits nothing and drops the timer. The embedder owns the native timer
//! source and performs the arming this machine decides on.

use vstd::prelude::*;

use crate::input::{event_to_mods, spec_mods_from_masks, Modifiers};

verus! {

/// Offset between the keycodes a compositor keyboard event carries and the
/// keycodes the keymap speaks: the keymap's code space starts eight above.
pub const KEYCODE_OFFSET: u32 = 8;

/// The rate at which a pressed key is repeated, in microseconds.
#[derive(Clone, Copy, Debug, PartialEq, Eq, Structural)]
pub enum RepeatInfo {
    /// Keys repeat: the first repeat comes `delay` after the press, the
    /// following ones `gap` apart.
    Repeat { gap: u64, delay: u64 },
    /// Keys do not repeat.
    Disable,
}

impl Default for RepeatInfo {
    /// Until the compositor says otherwise: 25 repeats per second after a
    /// 200 ms delay, the common compositor default.
    fn default() -> (r: RepeatInfo)
        ensures
            r == (RepeatInfo::Repeat { gap: 40000u64, delay: 200000u64 }),
    {
        RepeatInfo::Repeat { gap: 40000, delay: 200000 }
    }
}

/// A normalized key event on its way to a window's handler.
#[derive(Clone, Copy, Debug, PartialEq, Eq, Structural)]
pub struct KeyEmission {
    /// The focused window the event belongs to.
    pub window_id: u64,
    /// Keycode in the keymap's code space.
    pub key: u32,
    /// The cached modifier set at the time of the event.
    pub mods: Modifiers,
    /// Down or up.
    pub pressed: bool,
    /// Whether this is a synthetic repeat of a held key.
    pub repeat: bool,
}

/// What the embedder must do to the repeat timer source after an event.
#[derive(Clone, Copy, Debug, PartialEq, Eq, Structural)]
pub enum RepeatTimerAction {
    /// Leave the source as it is.
    Keep,
    /// Remove any armed timer.
    Cancel,
    /// Remove any armed timer and arm a fresh one-shot after `delay`
    /// microseconds.
    Schedule { delay: u64 },
}

/// What the embedder must do to the repeat timer source after a firing.
#[derive(Clone, Copy, Debug, PartialEq, Eq, Structural)]
pub enum RepeatFireAction {
    /// Drop the timer; repeating has stopped.
    Drop,
    /// Fire again after `gap` microseconds.
    Reschedule { gap: u64 },
}

/// A native keyboard event, reduced to the plain values the state machine
/// reads.
#[derive(Clone, Copy, Debug, PartialEq, Eq, Structural)]
pub enum KeyboardEvent {
    /// Keyboard focus entered the window with this id.
    Enter { window_id: u64 },
    /// Keyboard focus left the focused window.
    Leave,
    /// A key changed state; `keycode` is in the compositor's code space.
    Key { keycode: u32, pressed: bool },
    /// The depressed and locked modifier masks changed.
    Mods { depressed: u32, locked: u32 },
    /// The compositor announced the repeat rate (repeats per second; zero
    /// disables repeat) and delay (milliseconds).
    Repeat { rate: u32, delay_ms: u32 },
}

/// Keyboard state for one seat.
#[derive(Clone, Copy, Debug, PartialEq, Eq, Structural)]
pub struct KeyboardState {
    /// The repeat rate in force.
    pub repeat_info: RepeatInfo,
    /// The key (keymap code space) currently repeating, if any.
    pub current_repeat: Option<u32>,
    /// Whether a repeat timer is armed with the embedder. At most one ever
    /// is: arming replaces, and a firing either re-arms or drops.
    pub repeat_armed: bool,
    /// The cached modifier set, consulted by every key emission.
    pub mods: Modifiers,
    /// The window with keyboard focus, if the compositor reported one.
    pub focus: Option<u64>,
}

impl KeyboardState {
    /// While repeat is disabled no key is current: a repeat-rate change to
    /// zero clears the current key, and presses do not set one.
    pub open spec fn wf(self) -> bool {
        self.repeat_info is Disable ==> self.current_repeat is None
    }

    pub fn new() -> (s: KeyboardState)
        ensures
            s.wf(),
            s.repeat_info == (RepeatInfo::Repeat { gap: 40000u64, delay: 200000u64 }),
            s.current_repeat is None,
            !s.repeat_armed,
            s.mods.bits == 0,
            s.focus is None,
    {
        KeyboardState {
            repeat_info: RepeatInfo::Repeat { gap: 40000, delay: 200000 },
            current_repeat: None,
            repeat_armed: false,
            mods: Modifiers { bits: 0 },
            focus: None,
        }
    }

    /// Feed one native keyboard event through the machine. Returns the key
    /// event to deliver, if the event concerns a focused window's handler,
    /// and what to do with the repeat timer.
    pub fn handle_event(&mut self, event: KeyboardEvent) -> (r: (
        Option<KeyEmission>,
        RepeatTimerAction,
    ))
        requires
            old(self).wf(),
            event matches KeyboardEvent::Key { keycode, .. } ==> keycode + KEYCODE_OFFSET
                <= u32::MAX,
        ensures
            final(self).wf(),
            event matches KeyboardEvent::Enter { window_id } ==> {
                &&& *final(self) == (KeyboardState {
                    current_repeat: None,
                    focus: Some(window_id),
                    ..*old(self)
                })
                &&& r.0 is None
                &&& r.1 is Keep
            },
            event is Leave ==> {
                &&& *final(self) == (KeyboardState {
                    current_repeat: None,
                    focus: None,
                    ..*old(self)
                })
                &&& r.0 is None
                &&& r.1 is Keep
            },
            event matches KeyboardEvent::Key { keycode, pressed: true } ==> {
                &&& r.0 == (match old(self).focus {
                    Some(w) => Some(
                        KeyEmission {
                            window_id: w,
                            key: (keycode + KEYCODE_OFFSET) as u32,
                            mods: old(self).mods,
                            pressed: true,
                            repeat: false,
                        },
                    ),
                    None => None::<KeyEmission>,
                })
                &&& (old(self).repeat_info matches RepeatInfo::Repeat { delay, .. } ==> {
                    &&& *final(self) == (KeyboardState {
                        current_repeat: Some((keycode + KEYCODE_OFFSET) as u32),
                        repeat_armed: true,
                        ..*old(self)
                    })
                    &&& r.1 == (RepeatTimerAction::Schedule { delay })
                })
                &&& (old(self).repeat_info is Disable ==> *final(self) == *old(self) && r.1 is Keep)
            },
            event matches KeyboardEvent::Key { keycode, pressed: false } ==> {
                &&& r.0 == (match old(self).focus {
                    Some(w) => Some(
                        KeyEmission {
                            window_id: w,
                            key: (keycode + KEYCODE_OFFSET) as u32,
                            mods: old(self).mods,
                            pressed: false,
                            repeat: false,
                        },
                    ),
                    None => None::<KeyEmission>,
                })
                &&& r.1 is Keep
                &&& (old(self).repeat_info is Disable ==> *final(self) == *old(self))
                &&& (!(old(self).repeat_info is Disable) ==> *final(self) == (KeyboardState {
                    current_repeat: None,
                    ..*old(self)
                }))
            },
            event matches KeyboardEvent::Mods { depressed, locked } ==> {
                &&& *final(self) == (KeyboardState {
                    mods: spec_mods_from_masks(depressed, locked),
                    ..*old(self)
                })
                &&& r.0 is None
                &&& r.1 is Keep
            },
            event matches KeyboardEvent::Repeat { rate, delay_ms } ==> {
                &&& (rate == 0 ==> {
                    &&& *final(self) == (KeyboardState {
                        repeat_info: RepeatInfo::Disable,
                        current_repeat: None,
                        repeat_armed: false,
                        ..*old(self)
                    })
                    &&& r.1 is Cancel
                })
                &&& (rate != 0 ==> {
                    &&& *final(self) == (KeyboardState {
                        repeat_info: RepeatInfo::Repeat {
                            gap: (1000000u64 / rate as u64) as u64,
                            delay: (delay_ms as u64 * 1000) as u64,
                        },
                        ..*old(self)
                    })
                    &&& r.1 is Keep
                })
                &&& r.0 is None
            },
    {
        match event {
            KeyboardEvent::Enter { window_id } => {
                self.current_repeat = None;
                self.focus = Some(window_id);
                (None, RepeatTimerAction::Keep)
            },
            KeyboardEvent::Leave => {
                self.current_repeat = None;
                self.focus = None;
                (None, RepeatTimerAction::Keep)
            },
            KeyboardEvent::Key { keycode, pressed: true } => {
                let key = keycode + KEYCODE_OFFSET;
                let emission = match self.focus {
                    Some(w) => Some(
                        KeyEmission {
                            window_id: w,
                            key,
                            mods: self.mods,
                            pressed: true,
                            repeat: false,
                        },
                    ),
                    None => None,
                };
                match self.repeat_info {
                    RepeatInfo::Repeat { delay, .. } => {
                        self.current_repeat = Some(key);
                        self.repeat_armed = true;
                        (emission, RepeatTimerAction::Schedule { delay })
                    },
                    RepeatInfo::Disable => (emission, RepeatTimerAction::Keep),
                }
            },
            KeyboardEvent::Key { keycode, pressed: false } => {
                let key = keycode + KEYCODE_OFFSET;
                let emission = match self.focus {
                    Some(w) => Some(
                        KeyEmission {
                            window_id: w,
                            key,
                            mods: self.mods,
                            pressed: false,
                            repeat: false,
                        },
                    ),
                    None => None,
                };
                if !matches!(self.repeat_info, RepeatInfo::Disable) {
                    self.current_repeat = None;
                }
                (emission, RepeatTimerAction::Keep)
            },
            KeyboardEvent::Mods { depressed, locked } => {
                self.mods = event_to_mods(depressed, locked);
                (None, RepeatTimerAction::Keep)
            },
            KeyboardEvent::Repeat { rate, delay_ms } => {
                if rate == 0 {
                    self.repeat_info = RepeatInfo::Disable;
                    self.current_repeat = None;
                    self.repeat_armed = false;
                    (None, RepeatTimerAction::Cancel)
                } else {
                    let gap: u64 = 1000000u64 / (rate as u64);
                    let delay: u64 = (delay_ms as u64) * 1000;
                    self.repeat_info = RepeatInfo::Repeat { gap, delay };
                    (None, RepeatTimerAction::Keep)
                }
            },
        }
    }

    /// The armed repeat timer fired. If the key that armed it is still
    /// current, emit a synthetic repeating key-down to the focused window
    /// and re-arm after the gap in force (the gap may have changed since
    /// the arming); otherwise emit nothing and drop the timer — so repeats
    /// stop within one firing of the key's release.
    pub fn repeat_fire(&mut self) -> (r: (Option<KeyEmission>, RepeatFireAction))
        requires
            old(self).wf(),
        ensures
            final(self).wf(),
            old(self).current_repeat is None ==> {
                &&& *final(self) == (KeyboardState { repeat_armed: false, ..*old(self) })
                &&& r.0 is None
                &&& r.1 is Drop
            },
            old(self).current_repeat matches Some(key) ==> {
                &&& r.0 == (match old(self).focus {
                    Some(w) => Some(
                        KeyEmission {
                            window_id: w,
                            key,
                            mods: old(self).mods,
                            pressed: true,
                            repeat: true,
                        },
                    ),
                    None => None::<KeyEmission>,
                })
                &&& (old(self).repeat_info matches RepeatInfo::Repeat { gap, .. } ==> *final(self)
                    == *old(self) && r.1 == (RepeatFireAction::Reschedule { gap }))
            },
    {
        let key = match self.current_repeat {
            Some(key) => key,
            None => {
                self.repeat_armed = false;
                return (None, RepeatFireAction::Drop);
            },
        };
        let emission = match self.focus {
            Some(w) => Some(
                KeyEmission { window_id: w, key, mods: self.mods, pressed: true, repeat: true },
            ),
            None => None,
        };
        match self.repeat_info {
            RepeatInfo::Repeat { gap, .. } => (emission, RepeatFireAction::Reschedule { gap }),
            RepeatInfo::Disable => {
                self.repeat_armed = false;
                (emission, RepeatFireAction::Drop)
            },
        }
    }
}

/// When a repeat timer armed at `press_time` with delay `delay` keeps being
/// re-armed every `gap`, the `n`-th repeating key-down fires at
/// `press_time + delay + n * gap`.
pub open spec fn spec_repeat_fire_time(press_time: int, delay: int, gap: int, n: nat) -> int
    decreases n,
{
    if n == 0 {
        press_time + delay
    } else {
        spec_repeat_fire_time(press_time, delay, gap, (n - 1) as nat) + gap
    }
}

/// The firing times form the arithmetic sequence the repeat contract
/// promises: the first repeat one delay after the press, each further one
/// a gap later.
pub proof fn lemma_repeat_fire_times(press_time: int, delay: int, gap: int, n: nat)
    ensures
        spec_repeat_fire_time(press_time, delay, gap, n) == press_time + delay + n * gap,
    decreases n,
{
    if n == 0 {
    } else {
        lemma_repeat_fire_times(press_time, delay, gap, (n - 1) as nat);
        assert(n * gap == (n - 1) as nat * gap + gap) by (nonlinear_arith)
            requires
                n >= 1,
        ;
    }
}

} // verus!
