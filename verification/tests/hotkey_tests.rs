use clipboard_translator::config::{Hotkey, PressMode, VK_CONTROL, VK_MENU, VK_SHIFT};
use clipboard_translator::hotkey::{
    check_triggered, decode_hook_event, is_hotkey_pressed, Activation, DebounceGate,
    DetectorState, HotkeyDetector, HotkeyMatcher, KeyEvent, KeySample, MatcherState,
    ModifierState, PressHistory, Transition, DEBOUNCE_DELAY_MS, DOUBLE_PRESS_WINDOW_MS,
    WM_KEYDOWN, WM_SYSKEYDOWN,
};

const VK_T: i32 = 0x54;
const VK_C: i32 = 0x43;
const VK_X: i32 = 0x58;

fn down(key_code: i32, timestamp: u64) -> KeyEvent {
    KeyEvent { key_code, transition: Transition::Down, timestamp }
}

fn up(key_code: i32, timestamp: u64) -> KeyEvent {
    KeyEvent { key_code, transition: Transition::Up, timestamp }
}

fn single(ctrl: bool, alt: bool, shift: bool, key_code: i32) -> Hotkey {
    Hotkey { ctrl, alt, shift, key_code, mode: PressMode::SinglePress }
}

fn double(ctrl: bool, alt: bool, shift: bool, key_code: i32) -> Hotkey {
    Hotkey { ctrl, alt, shift, key_code, mode: PressMode::DoublePress }
}

fn count_activations(matcher: &mut HotkeyMatcher, events: &[KeyEvent]) -> usize {
    let mut n = 0;
    for e in events {
        if matcher.match_event(e).is_some() {
            n += 1;
        }
    }
    n
}

fn emitted_times(detector: &mut HotkeyDetector, events: &[KeyEvent]) -> Vec<u64> {
    let mut out = Vec::new();
    for e in events {
        if let Some(a) = detector.on_key_event(e) {
            out.push(a.timestamp);
        }
    }
    out
}

#[test]
fn ctrl_shift_t_fires_once_and_ignores_repeat() {
    let mut matcher = HotkeyMatcher::new(single(true, false, true, VK_T));
    assert_eq!(matcher.match_event(&down(VK_CONTROL, 0)), None);
    assert_eq!(matcher.match_event(&down(VK_SHIFT, 10)), None);
    assert_eq!(matcher.match_event(&down(VK_T, 20)), Some(Activation { timestamp: 20 }));
    assert_eq!(matcher.match_event(&down(VK_T, 50)), None);
}

#[test]
fn new_matcher_starts_with_nothing_held() {
    let hotkey = single(true, false, false, VK_C);
    let matcher = HotkeyMatcher::new(hotkey);
    assert_eq!(matcher.configured_hotkey(), hotkey);
    assert_eq!(
        matcher.snapshot(),
        MatcherState {
            modifiers: ModifierState { ctrl: false, alt: false, shift: false },
            held: false,
            history: PressHistory { last_timestamp: None, count: 0 },
        }
    );
}

#[test]
fn unrelated_keys_never_activate() {
    let mut matcher = HotkeyMatcher::new(single(true, false, false, VK_C));
    let events = [
        down(VK_CONTROL, 0),
        down(VK_X, 10),
        up(VK_X, 20),
        down(VK_T, 30),
        up(VK_T, 40),
        up(VK_CONTROL, 50),
        down(VK_X, 60),
    ];
    assert_eq!(count_activations(&mut matcher, &events), 0);
}

#[test]
fn missing_modifier_never_activates() {
    let mut matcher = HotkeyMatcher::new(single(true, false, false, VK_C));
    let events = [down(VK_C, 0), up(VK_C, 10), down(VK_C, 20), up(VK_C, 30)];
    assert_eq!(count_activations(&mut matcher, &events), 0);
}

#[test]
fn extra_modifier_is_a_mismatch() {
    let mut matcher = HotkeyMatcher::new(single(true, false, false, VK_C));
    let events = [down(VK_CONTROL, 0), down(VK_SHIFT, 5), down(VK_C, 10)];
    assert_eq!(count_activations(&mut matcher, &events), 0);
    assert!(matcher.snapshot().held);
}

#[test]
fn mismatched_press_still_holds_the_key() {
    let mut matcher = HotkeyMatcher::new(single(true, false, false, VK_C));
    assert_eq!(matcher.match_event(&down(VK_C, 0)), None);
    assert_eq!(matcher.match_event(&down(VK_CONTROL, 10)), None);
    // The key is still down from before: a repeat, not a press.
    assert_eq!(matcher.match_event(&down(VK_C, 20)), None);
    assert_eq!(matcher.match_event(&up(VK_C, 30)), None);
    assert_eq!(matcher.match_event(&down(VK_C, 40)), Some(Activation { timestamp: 40 }));
}

#[test]
fn key_repeat_yields_one_activation() {
    let mut matcher = HotkeyMatcher::new(single(false, true, false, VK_T));
    assert_eq!(matcher.match_event(&down(VK_MENU, 0)), None);
    let events = [down(VK_T, 10), down(VK_T, 40), down(VK_T, 70), down(VK_T, 100), down(VK_T, 900)];
    assert_eq!(count_activations(&mut matcher, &events), 1);
}

#[test]
fn release_allows_the_next_press() {
    let mut matcher = HotkeyMatcher::new(single(false, false, false, VK_T));
    let events = [down(VK_T, 0), up(VK_T, 10), down(VK_T, 20), up(VK_T, 30), down(VK_T, 40)];
    assert_eq!(count_activations(&mut matcher, &events), 3);
}

#[test]
fn releasing_a_modifier_ends_the_match() {
    let mut matcher = HotkeyMatcher::new(single(true, false, false, VK_C));
    let events = [down(VK_CONTROL, 0), up(VK_CONTROL, 5), down(VK_C, 10)];
    assert_eq!(count_activations(&mut matcher, &events), 0);
}

#[test]
fn double_press_within_window_activates_once() {
    let mut matcher = HotkeyMatcher::new(double(true, false, false, VK_C));
    assert_eq!(matcher.match_event(&down(VK_CONTROL, 0)), None);
    assert_eq!(matcher.match_event(&down(VK_C, 1000)), None);
    assert_eq!(
        matcher.snapshot().history,
        PressHistory { last_timestamp: Some(1000), count: 1 }
    );
    assert_eq!(matcher.match_event(&up(VK_C, 1050)), None);
    assert_eq!(matcher.match_event(&down(VK_C, 1499)), Some(Activation { timestamp: 1499 }));
    assert_eq!(matcher.snapshot().history, PressHistory { last_timestamp: None, count: 0 });
}

#[test]
fn double_press_at_window_does_not_activate() {
    let mut matcher = HotkeyMatcher::new(double(true, false, false, VK_C));
    let events = [down(VK_CONTROL, 0), down(VK_C, 1000), up(VK_C, 1050), down(VK_C, 1500)];
    assert_eq!(count_activations(&mut matcher, &events), 0);
    assert_eq!(
        matcher.snapshot().history,
        PressHistory { last_timestamp: Some(1500), count: 1 }
    );
    assert_eq!(DOUBLE_PRESS_WINDOW_MS, 500);
}

#[test]
fn late_second_press_starts_a_new_window() {
    let mut matcher = HotkeyMatcher::new(double(false, false, false, VK_C));
    let events = [
        down(VK_C, 0),
        up(VK_C, 10),
        down(VK_C, 700),
        up(VK_C, 710),
        down(VK_C, 900),
    ];
    assert_eq!(count_activations(&mut matcher, &events), 1);
}

#[test]
fn third_press_starts_fresh() {
    let mut matcher = HotkeyMatcher::new(double(false, false, false, VK_C));
    let events = [
        down(VK_C, 0),
        up(VK_C, 10),
        down(VK_C, 100),
        up(VK_C, 110),
        down(VK_C, 200),
        up(VK_C, 210),
    ];
    assert_eq!(count_activations(&mut matcher, &events), 1);
    assert_eq!(matcher.snapshot().history, PressHistory { last_timestamp: Some(200), count: 1 });
    assert_eq!(matcher.match_event(&down(VK_C, 300)), Some(Activation { timestamp: 300 }));
}

#[test]
fn double_press_needs_a_release_between() {
    let mut matcher = HotkeyMatcher::new(double(false, false, false, VK_C));
    let events = [down(VK_C, 0), down(VK_C, 30), down(VK_C, 60)];
    assert_eq!(count_activations(&mut matcher, &events), 0);
}

#[test]
fn clock_going_backwards_counts_as_no_time() {
    let mut matcher = HotkeyMatcher::new(double(false, false, false, VK_C));
    let events = [down(VK_C, 5000), up(VK_C, 5010), down(VK_C, 100)];
    assert_eq!(count_activations(&mut matcher, &events), 1);
}

#[test]
fn check_double_press_follows_the_protocol() {
    let mut matcher = HotkeyMatcher::new(double(false, false, false, VK_C));
    assert!(!matcher.check_double_press(10));
    assert!(matcher.check_double_press(509));
    assert!(!matcher.check_double_press(600));
    assert!(!matcher.check_double_press(1100));
    assert!(matcher.check_double_press(1101));
}

#[test]
fn check_hotkey_match_ignores_other_keys() {
    let mut matcher = HotkeyMatcher::new(single(false, false, false, VK_C));
    assert!(!matcher.check_hotkey_match(VK_X, 0));
    assert!(!matcher.snapshot().held);
    assert!(matcher.check_hotkey_match(VK_C, 1));
    assert!(matcher.snapshot().held);
    assert!(!matcher.check_hotkey_match(VK_C, 2));
}

#[test]
fn modifier_as_main_key_never_fires() {
    let hotkey = single(true, false, false, VK_CONTROL);
    assert!(!hotkey.is_valid());
    let mut matcher = HotkeyMatcher::new(hotkey);
    let events = [down(VK_CONTROL, 0), up(VK_CONTROL, 10), down(VK_CONTROL, 20)];
    assert_eq!(count_activations(&mut matcher, &events), 0);
}

#[test]
fn debounce_gate_holds_back_within_cooldown() {
    let mut gate = DebounceGate::new();
    assert!(gate.let_through(Activation { timestamp: 1000 }));
    assert!(!gate.let_through(Activation { timestamp: 1000 }));
    assert!(!gate.let_through(Activation { timestamp: 1199 }));
    assert!(gate.let_through(Activation { timestamp: 1200 }));
    assert!(!gate.let_through(Activation { timestamp: 1399 }));
    assert!(!gate.let_through(Activation { timestamp: 900 }));
    assert!(gate.let_through(Activation { timestamp: 1400 }));
    assert_eq!(DEBOUNCE_DELAY_MS, 200);
}

#[test]
fn no_second_activation_within_cooldown() {
    let mut detector = HotkeyDetector::new(single(false, false, false, VK_T));
    let events = [
        down(VK_T, 0),
        up(VK_T, 10),
        down(VK_T, 50),
        up(VK_T, 60),
        down(VK_T, 199),
        up(VK_T, 199),
        down(VK_T, 200),
        up(VK_T, 210),
        down(VK_T, 399),
        up(VK_T, 400),
        down(VK_T, 1000),
    ];
    assert_eq!(emitted_times(&mut detector, &events), vec![0, 200, 1000]);
}

#[test]
fn suppressed_double_press_still_uses_up_the_presses() {
    let mut detector = HotkeyDetector::new(double(false, false, false, VK_C));
    let events = [
        down(VK_C, 0),
        up(VK_C, 10),
        down(VK_C, 100),
        up(VK_C, 110),
        down(VK_C, 150),
        up(VK_C, 160),
        down(VK_C, 250),
        up(VK_C, 260),
        down(VK_C, 320),
    ];
    assert_eq!(emitted_times(&mut detector, &events), vec![100]);
    assert_eq!(
        detector.snapshot().matcher.history,
        PressHistory { last_timestamp: Some(320), count: 1 }
    );
}

#[test]
fn check_triggered_reads_and_clears() {
    let hotkey = single(false, false, false, VK_T);
    let mut detector = HotkeyDetector::new(hotkey);
    assert_eq!(
        detector.snapshot(),
        DetectorState {
            matcher: HotkeyMatcher::new(hotkey).snapshot(),
            last_activation: None,
            triggered: false,
        }
    );
    assert!(!check_triggered(&mut detector));
    assert_eq!(detector.on_key_event(&down(VK_T, 7)), Some(Activation { timestamp: 7 }));
    assert!(detector.snapshot().triggered);
    assert_eq!(detector.snapshot().last_activation, Some(7));
    assert!(check_triggered(&mut detector));
    assert!(!check_triggered(&mut detector));
    assert_eq!(detector.snapshot().last_activation, Some(7));
}

#[test]
fn suppressed_activation_does_not_trigger() {
    let mut detector = HotkeyDetector::new(single(false, false, false, VK_T));
    assert!(detector.on_key_event(&down(VK_T, 0)).is_some());
    assert!(check_triggered(&mut detector));
    assert_eq!(detector.on_key_event(&up(VK_T, 10)), None);
    assert_eq!(detector.on_key_event(&down(VK_T, 100)), None);
    assert!(!check_triggered(&mut detector));
}

fn sample(ctrl: bool, main_key: bool, timestamp: u64) -> KeySample {
    KeySample { ctrl, alt: false, shift: false, main_key, timestamp }
}

#[test]
fn polling_detects_the_press_edge_only() {
    let mut detector = HotkeyDetector::new(single(true, false, false, VK_C));
    assert!(!is_hotkey_pressed(&mut detector, &sample(false, false, 0)));
    assert!(!is_hotkey_pressed(&mut detector, &sample(true, false, 100)));
    assert!(is_hotkey_pressed(&mut detector, &sample(true, true, 200)));
    assert!(!is_hotkey_pressed(&mut detector, &sample(true, true, 300)));
    assert!(!is_hotkey_pressed(&mut detector, &sample(true, true, 700)));
    assert!(!is_hotkey_pressed(&mut detector, &sample(true, false, 800)));
    assert!(is_hotkey_pressed(&mut detector, &sample(true, true, 900)));
    assert!(!check_triggered(&mut detector));
}

#[test]
fn polling_needs_exact_modifiers() {
    let mut detector = HotkeyDetector::new(single(true, false, false, VK_C));
    let with_shift = KeySample { ctrl: true, alt: false, shift: true, main_key: true, timestamp: 0 };
    assert!(!is_hotkey_pressed(&mut detector, &with_shift));
    // Still held: dropping Shift does not make it a new press.
    assert!(!is_hotkey_pressed(&mut detector, &sample(true, true, 100)));
}

#[test]
fn polling_double_press() {
    let mut detector = HotkeyDetector::new(double(true, false, false, VK_C));
    assert!(!is_hotkey_pressed(&mut detector, &sample(true, true, 0)));
    assert!(!is_hotkey_pressed(&mut detector, &sample(true, false, 100)));
    assert!(is_hotkey_pressed(&mut detector, &sample(true, true, 200)));
    assert!(!is_hotkey_pressed(&mut detector, &sample(true, false, 300)));
    assert!(!is_hotkey_pressed(&mut detector, &sample(true, true, 1000)));
    assert!(!is_hotkey_pressed(&mut detector, &sample(true, false, 1100)));
    assert!(!is_hotkey_pressed(&mut detector, &sample(true, true, 1500)));
}

#[test]
fn hook_messages_decode_to_events() {
    assert_eq!(decode_hook_event(WM_KEYDOWN, 0x43, 12), down(VK_C, 12));
    assert_eq!(decode_hook_event(WM_SYSKEYDOWN, 0x12, 13), down(VK_MENU, 13));
    assert_eq!(decode_hook_event(0x0101, 0x43, 14), up(VK_C, 14));
    assert_eq!(decode_hook_event(0x0105, 0x12, 15), up(VK_MENU, 15));
    assert_eq!(decode_hook_event(0x0101, 0xFFFF_FFFF, 16), up(-1, 16));
    assert_eq!(decode_hook_event(0x0100, 0x8000_0000, 17), down(i32::MIN, 17));
}
