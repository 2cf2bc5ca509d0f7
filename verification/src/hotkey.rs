//! Recognising a hotkey in a stream of key transitions.
//!
//! The matcher is a small state machine over plain values. Its behaviour is
//! given by the spec functions [`step`] and [`detector_step`]; the executable
//! methods are proved to compute exactly those.

use vstd::prelude::*;
use crate::config::{Hotkey, PressMode, is_modifier_key, VK_CONTROL, VK_MENU, VK_SHIFT};

verus! {

/// Two presses count as a double press when less than this many
/// milliseconds lie between them.
pub const DOUBLE_PRESS_WINDOW_MS: u64 = 500;

/// After an activation, further activations are suppressed for this many
/// milliseconds.
pub const DEBOUNCE_DELAY_MS: u64 = 200;

/// Direction of a key transition.
#[derive(Clone, Copy, Debug, PartialEq, Eq, Structural)]
pub enum Transition {
    Down,
    Up,
}

/// One key transition, stamped in milliseconds of a monotonic clock.
#[derive(Clone, Copy, Debug, PartialEq, Eq, Structural)]
pub struct KeyEvent {
    pub key_code: i32,
    pub transition: Transition,
    pub timestamp: u64,
}

/// Which modifiers are held right now.
#[derive(Clone, Copy, Debug, PartialEq, Eq, Structural)]
pub struct ModifierState {
    pub ctrl: bool,
    pub alt: bool,
    pub shift: bool,
}

/// The pending first press of a double press.
#[derive(Clone, Copy, Debug, PartialEq, Eq, Structural)]
pub struct PressHistory {
    pub last_timestamp: Option<u64>,
    pub count: u8,
}

/// Everything the matcher remembers between events.
#[derive(Clone, Copy, Debug, PartialEq, Eq, Structural)]
pub struct MatcherState {
    pub modifiers: ModifierState,
    pub held: bool,
    pub history: PressHistory,
}

/// A detected hotkey trigger, stamped with the time of the key press that
/// completed it.
#[derive(Clone, Copy, Debug, PartialEq, Eq, Structural)]
pub struct Activation {
    pub timestamp: u64,
}

/// One sample of the keyboard, as a polling loop sees it.
#[derive(Clone, Copy, Debug, PartialEq, Eq, Structural)]
pub struct KeySample {
    pub ctrl: bool,
    pub alt: bool,
    pub shift: bool,
    pub main_key: bool,
    pub timestamp: u64,
}

/// Window message of a key going down.
pub const WM_KEYDOWN: u32 = 0x0100;

/// Window message of a key going down while Alt is held.
pub const WM_SYSKEYDOWN: u32 = 0x0104;

/// The transition that a keyboard window message reports: the two key-down
/// messages are a Down, every other message an Up.
pub open spec fn message_transition(message: u32) -> Transition {
    if message == WM_KEYDOWN || message == WM_SYSKEYDOWN {
        Transition::Down
    } else {
        Transition::Up
    }
}

/// A 32-bit virtual-key code read as a signed number.
pub open spec fn signed_code(vk_code: u32) -> i32 {
    if vk_code <= i32::MAX {
        vk_code as i32
    } else {
        (vk_code - 0x1_0000_0000) as i32
    }
}

/// The key event that a low-level keyboard callback was handed: its window
/// message, the virtual-key code, and the time in milliseconds.
pub fn decode_hook_event(message: u32, vk_code: u32, timestamp: u64) -> (event: KeyEvent)
    ensures
        event == (KeyEvent {
            key_code: signed_code(vk_code),
            transition: message_transition(message),
            timestamp,
        }),
{
    let key_code: i32 = if vk_code <= 0x7FFF_FFFF {
        vk_code as i32
    } else {
        (vk_code as i64 - 0x1_0000_0000) as i32
    };
    let transition = if message == WM_KEYDOWN || message == WM_SYSKEYDOWN {
        Transition::Down
    } else {
        Transition::Up
    };
    KeyEvent { key_code, transition, timestamp }
}

impl PressHistory {
    /// No press is pending.
    pub open spec fn empty() -> PressHistory {
        PressHistory { last_timestamp: None, count: 0 }
    }

    /// At most one press is ever pending, and it carries its timestamp.
    pub open spec fn wf(&self) -> bool {
        self.count <= 1 && (self.count == 0 <==> self.last_timestamp is None)
    }
}

impl MatcherState {
    /// Nothing held, nothing pending.
    pub open spec fn initial() -> MatcherState {
        MatcherState {
            modifiers: ModifierState { ctrl: false, alt: false, shift: false },
            held: false,
            history: PressHistory::empty(),
        }
    }

    pub open spec fn wf(&self) -> bool {
        self.history.wf()
    }
}

/// Milliseconds from `last` to `now`; a clock that went backwards counts as
/// no time passed.
pub open spec fn elapsed_ms(last: u64, now: u64) -> int {
    if now >= last {
        now - last
    } else {
        0
    }
}

/// The modifier bits after a transition of a modifier key.
pub open spec fn modifiers_step(m: ModifierState, e: KeyEvent) -> ModifierState {
    let down = e.transition is Down;
    if e.key_code == VK_CONTROL {
        ModifierState { ctrl: down, ..m }
    } else if e.key_code == VK_MENU {
        ModifierState { alt: down, ..m }
    } else if e.key_code == VK_SHIFT {
        ModifierState { shift: down, ..m }
    } else {
        m
    }
}

/// The held modifiers are exactly those the hotkey asks for.
pub open spec fn modifiers_match(hotkey: Hotkey, m: ModifierState) -> bool {
    m.ctrl == hotkey.ctrl && m.alt == hotkey.alt && m.shift == hotkey.shift
}

/// The double-press protocol on one qualifying press at time `now`: the new
/// history, and whether this press completes a double press.
pub open spec fn history_step(h: PressHistory, now: u64) -> (PressHistory, bool) {
    match h.last_timestamp {
        Some(last) => {
            if elapsed_ms(last, now) < DOUBLE_PRESS_WINDOW_MS {
                if h.count + 1 >= 2 {
                    (PressHistory::empty(), true)
                } else {
                    (PressHistory { last_timestamp: Some(now), count: (h.count + 1) as u8 }, false)
                }
            } else {
                (PressHistory { last_timestamp: Some(now), count: 1 }, false)
            }
        },
        None => (PressHistory { last_timestamp: Some(now), count: 1 }, false),
    }
}

/// A Down transition of a key that is no modifier: the new state, and
/// whether the hotkey fires.
pub open spec fn key_down_step(hotkey: Hotkey, s: MatcherState, key_code: i32, now: u64) -> (
    MatcherState,
    bool,
) {
    if key_code != hotkey.key_code || s.held {
        (s, false)
    } else {
        let pressed = MatcherState { held: true, ..s };
        if !modifiers_match(hotkey, s.modifiers) {
            (pressed, false)
        } else if hotkey.mode is SinglePress {
            (pressed, true)
        } else {
            let (history, fired) = history_step(s.history, now);
            (MatcherState { history, ..pressed }, fired)
        }
    }
}

/// The matcher's transition function: the state after `e`, and whether `e`
/// fires the hotkey.
pub open spec fn step(hotkey: Hotkey, s: MatcherState, e: KeyEvent) -> (MatcherState, bool) {
    if is_modifier_key(e.key_code) {
        (MatcherState { modifiers: modifiers_step(s.modifiers, e), ..s }, false)
    } else if e.transition is Down {
        key_down_step(hotkey, s, e.key_code, e.timestamp)
    } else if e.key_code == hotkey.key_code {
        (MatcherState { held: false, ..s }, false)
    } else {
        (s, false)
    }
}

/// Whether the debounce gate, having last let an activation through at
/// `last`, holds back one at `now`.
pub open spec fn suppressed(last: Option<u64>, now: u64) -> bool {
    match last {
        Some(t) => elapsed_ms(t, now) < DEBOUNCE_DELAY_MS,
        None => false,
    }
}

/// Turns key transitions into activations of one hotkey.
pub struct HotkeyMatcher {
    hotkey: Hotkey,
    state: MatcherState,
}

impl HotkeyMatcher {
    /// The hotkey this matcher was built for.
    pub closed spec fn hotkey(&self) -> Hotkey {
        self.hotkey
    }

    /// What the matcher remembers.
    pub closed spec fn state(&self) -> MatcherState {
        self.state
    }

    pub open spec fn wf(&self) -> bool {
        self.state().wf()
    }

    /// A matcher for `hotkey` with no key held and no press pending.
    pub fn new(hotkey: Hotkey) -> (m: Self)
        ensures
            m.wf(),
            m.hotkey() == hotkey,
            m.state() == MatcherState::initial(),
    {
        HotkeyMatcher {
            hotkey,
            state: MatcherState {
                modifiers: ModifierState { ctrl: false, alt: false, shift: false },
                held: false,
                history: PressHistory { last_timestamp: None, count: 0 },
            },
        }
    }

    /// The hotkey this matcher was built for.
    pub fn configured_hotkey(&self) -> (h: Hotkey)
        ensures
            h == self.hotkey(),
    {
        self.hotkey
    }

    /// A copy of the current state.
    pub fn snapshot(&self) -> (s: MatcherState)
        ensures
            s == self.state(),
    {
        self.state
    }

    /// Runs the double-press protocol on a qualifying press at `now`.
    pub fn check_double_press(&mut self, now: u64) -> (fired: bool)
        requires
            old(self).wf(),
        ensures
            final(self).wf(),
            final(self).hotkey() == old(self).hotkey(),
            final(self).state().modifiers == old(self).state().modifiers,
            final(self).state().held == old(self).state().held,
            final(self).state().history == history_step(old(self).state().history, now).0,
            fired == history_step(old(self).state().history, now).1,
    {
        match self.state.history.last_timestamp {
            Some(last) => {
                let elapsed: u64 = if now >= last { now - last } else { 0 };
                if elapsed < DOUBLE_PRESS_WINDOW_MS {
                    let count: u8 = self.state.history.count + 1;
                    if count >= 2 {
                        self.state.history = PressHistory { last_timestamp: None, count: 0 };
                        return true;
                    }
                    self.state.history = PressHistory { last_timestamp: Some(now), count };
                } else {
                    self.state.history = PressHistory { last_timestamp: Some(now), count: 1 };
                }
            },
            None => {
                self.state.history = PressHistory { last_timestamp: Some(now), count: 1 };
            },
        }
        false
    }

    /// Handles a Down transition of a key that is no modifier.
    pub fn check_hotkey_match(&mut self, vk_code: i32, now: u64) -> (fired: bool)
        requires
            old(self).wf(),
        ensures
            final(self).wf(),
            final(self).hotkey() == old(self).hotkey(),
            final(self).state() == key_down_step(old(self).hotkey(), old(self).state(), vk_code, now).0,
            fired == key_down_step(old(self).hotkey(), old(self).state(), vk_code, now).1,
    {
        if vk_code != self.hotkey.key_code || self.state.held {
            return false;
        }
        self.state.held = true;
        let m = self.state.modifiers;
        if m.ctrl != self.hotkey.ctrl || m.alt != self.hotkey.alt || m.shift != self.hotkey.shift {
            return false;
        }
        match self.hotkey.mode {
            PressMode::SinglePress => true,
            PressMode::DoublePress => self.check_double_press(now),
        }
    }

    /// Feeds one key transition to the matcher. Returns the activation that
    /// the transition completes, if any.
    pub fn match_event(&mut self, event: &KeyEvent) -> (activation: Option<Activation>)
        requires
            old(self).wf(),
        ensures
            final(self).wf(),
            final(self).hotkey() == old(self).hotkey(),
            final(self).state() == step(old(self).hotkey(), old(self).state(), *event).0,
            activation == (if step(old(self).hotkey(), old(self).state(), *event).1 {
                Some(Activation { timestamp: event.timestamp })
            } else {
                None
            }),
    {
        let down = match event.transition {
            Transition::Down => true,
            Transition::Up => false,
        };
        if event.key_code == VK_CONTROL {
            self.state.modifiers.ctrl = down;
            None
        } else if event.key_code == VK_MENU {
            self.state.modifiers.alt = down;
            None
        } else if event.key_code == VK_SHIFT {
            self.state.modifiers.shift = down;
            None
        } else if down {
            if self.check_hotkey_match(event.key_code, event.timestamp) {
                Some(Activation { timestamp: event.timestamp })
            } else {
                None
            }
        } else {
            if event.key_code == self.hotkey.key_code {
                self.state.held = false;
            }
            None
        }
    }
}

/// The matcher's transition on one polled sample of the keyboard: the
/// modifier bits are taken from the sample, and the main key's level is read
/// as a Down or an Up transition of the hotkey's key.
pub open spec fn sample_step(hotkey: Hotkey, s: MatcherState, sample: KeySample) -> (
    MatcherState,
    bool,
) {
    let seen = MatcherState {
        modifiers: ModifierState { ctrl: sample.ctrl, alt: sample.alt, shift: sample.shift },
        ..s
    };
    if sample.main_key {
        key_down_step(hotkey, seen, hotkey.key_code, sample.timestamp)
    } else {
        (MatcherState { held: false, ..seen }, false)
    }
}

impl HotkeyMatcher {
    /// Feeds one polled sample of the keyboard to the matcher.
    pub fn poll(&mut self, sample: &KeySample) -> (fired: bool)
        requires
            old(self).wf(),
        ensures
            final(self).wf(),
            final(self).hotkey() == old(self).hotkey(),
            final(self).state() == sample_step(old(self).hotkey(), old(self).state(), *sample).0,
            fired == sample_step(old(self).hotkey(), old(self).state(), *sample).1,
    {
        self.state.modifiers = ModifierState {
            ctrl: sample.ctrl,
            alt: sample.alt,
            shift: sample.shift,
        };
        if sample.main_key {
            let key_code = self.hotkey.key_code;
            self.check_hotkey_match(key_code, sample.timestamp)
        } else {
            self.state.held = false;
            false
        }
    }
}

/// Holds back activations that follow another one too closely. It compares
/// timestamps and never waits.
pub struct DebounceGate {
    last_activation: Option<u64>,
}

impl DebounceGate {
    /// Time of the last activation that the debounce gate let through.
    pub closed spec fn last_activation(&self) -> Option<u64> {
        self.last_activation
    }

    /// A gate that has let nothing through yet.
    pub fn new() -> (g: Self)
        ensures
            g.last_activation() is None,
    {
        DebounceGate { last_activation: None }
    }

    /// Decides whether `activation` passes. One that passes starts a new
    /// cooldown; one that is held back leaves the debounce gate as it was.
    pub fn let_through(&mut self, activation: Activation) -> (passed: bool)
        ensures
            passed == !suppressed(old(self).last_activation(), activation.timestamp),
            final(self).last_activation() == (if passed {
                Some(activation.timestamp)
            } else {
                old(self).last_activation()
            }),
    {
        let now = activation.timestamp;
        let held_back = match self.last_activation {
            Some(t) => {
                let elapsed: u64 = if now >= t { now - t } else { 0 };
                elapsed < DEBOUNCE_DELAY_MS
            },
            None => false,
        };
        if held_back {
            false
        } else {
            self.last_activation = Some(now);
            true
        }
    }
}

/// State of a matcher behind its debounce gate, with the flag that the
/// consumer of activations polls.
#[derive(Clone, Copy, Debug, PartialEq, Eq, Structural)]
pub struct DetectorState {
    pub matcher: MatcherState,
    pub last_activation: Option<u64>,
    pub triggered: bool,
}

impl DetectorState {
    pub open spec fn initial() -> DetectorState {
        DetectorState { matcher: MatcherState::initial(), last_activation: None, triggered: false }
    }

    pub open spec fn wf(&self) -> bool {
        self.matcher.wf()
    }
}

/// What the debounce gate does to the outcome `(m, fired)` of a matcher transition
/// at time `now`: the new detector state, and whether an activation leaves
/// the debounce gate.
pub open spec fn gate_step(d: DetectorState, m: MatcherState, fired: bool, now: u64) -> (
    DetectorState,
    bool,
) {
    let emitted = fired && !suppressed(d.last_activation, now);
    (
        DetectorState {
            matcher: m,
            last_activation: if emitted {
                Some(now)
            } else {
                d.last_activation
            },
            triggered: d.triggered,
        },
        emitted,
    )
}

/// The detector's transition on a key event. An emitted activation also
/// raises the trigger flag.
pub open spec fn detector_step(hotkey: Hotkey, d: DetectorState, e: KeyEvent) -> (
    DetectorState,
    bool,
) {
    let (m, fired) = step(hotkey, d.matcher, e);
    let (gated, emitted) = gate_step(d, m, fired, e.timestamp);
    (DetectorState { triggered: d.triggered || emitted, ..gated }, emitted)
}

/// The detector's transition on a polled sample. The trigger flag is left
/// alone: the poller gets its answer directly.
pub open spec fn detector_poll(hotkey: Hotkey, d: DetectorState, sample: KeySample) -> (
    DetectorState,
    bool,
) {
    let (m, fired) = sample_step(hotkey, d.matcher, sample);
    gate_step(d, m, fired, sample.timestamp)
}

/// A hotkey matcher behind a debounce gate.
pub struct HotkeyDetector {
    matcher: HotkeyMatcher,
    gate: DebounceGate,
    triggered: bool,
}

impl View for HotkeyDetector {
    type V = DetectorState;

    closed spec fn view(&self) -> DetectorState {
        DetectorState {
            matcher: self.matcher.state(),
            last_activation: self.gate.last_activation(),
            triggered: self.triggered,
        }
    }
}

impl HotkeyDetector {
    /// The hotkey this detector watches for.
    pub closed spec fn hotkey(&self) -> Hotkey {
        self.matcher.hotkey()
    }

    pub open spec fn wf(&self) -> bool {
        self@.wf()
    }

    /// A detector for `hotkey` in its initial state.
    pub fn new(hotkey: Hotkey) -> (d: Self)
        ensures
            d.wf(),
            d.hotkey() == hotkey,
            d@ == DetectorState::initial(),
    {
        HotkeyDetector { matcher: HotkeyMatcher::new(hotkey), gate: DebounceGate::new(), triggered: false }
    }

    /// A copy of the current state.
    pub fn snapshot(&self) -> (s: DetectorState)
        ensures
            s == self@,
    {
        DetectorState {
            matcher: self.matcher.snapshot(),
            last_activation: self.gate.last_activation,
            triggered: self.triggered,
        }
    }

    /// Handles one key transition: the work of the keyboard callback. It
    /// only updates the detector and returns; the consumer picks the
    /// activation up with [`check_triggered`].
    pub fn on_key_event(&mut self, event: &KeyEvent) -> (emitted: Option<Activation>)
        requires
            old(self).wf(),
        ensures
            final(self).wf(),
            final(self).hotkey() == old(self).hotkey(),
            final(self)@ == detector_step(old(self).hotkey(), old(self)@, *event).0,
            emitted == (if detector_step(old(self).hotkey(), old(self)@, *event).1 {
                Some(Activation { timestamp: event.timestamp })
            } else {
                None
            }),
    {
        match self.matcher.match_event(event) {
            Some(activation) => {
                if self.gate.let_through(activation) {
                    self.triggered = true;
                    Some(activation)
                } else {
                    None
                }
            },
            None => None,
        }
    }
}

/// Reads and clears the trigger flag: `true` once for the activations
/// emitted since the last call.
pub fn check_triggered(detector: &mut HotkeyDetector) -> (triggered: bool)
    ensures
        triggered == old(detector)@.triggered,
        final(detector)@ == (DetectorState { triggered: false, ..old(detector)@ }),
        final(detector).hotkey() == old(detector).hotkey(),
{
    let was = detector.triggered;
    detector.triggered = false;
    was
}

/// Polling form of the detector: given the keyboard as sampled now, says
/// whether the hotkey has just been pressed.
pub fn is_hotkey_pressed(detector: &mut HotkeyDetector, sample: &KeySample) -> (pressed: bool)
    requires
        old(detector).wf(),
    ensures
        final(detector).wf(),
        final(detector).hotkey() == old(detector).hotkey(),
        final(detector)@ == detector_poll(old(detector).hotkey(), old(detector)@, *sample).0,
        pressed == detector_poll(old(detector).hotkey(), old(detector)@, *sample).1,
{
    if detector.matcher.poll(sample) {
        detector.gate.let_through(Activation { timestamp: sample.timestamp })
    } else {
        false
    }
}


} // verus!
