//! What holds of the hotkey detector over whole sequences of events.

use vstd::prelude::*;
use crate::config::Hotkey;
use crate::hotkey::{
    detector_step, elapsed_ms, modifiers_match, step, DetectorState, KeyEvent, MatcherState,
    PressHistory, Transition, DEBOUNCE_DELAY_MS, DOUBLE_PRESS_WINDOW_MS,
};

verus! {

/// The matcher's state after `events`, starting from `s`.
pub open spec fn run(hotkey: Hotkey, s: MatcherState, events: Seq<KeyEvent>) -> MatcherState
    decreases events.len(),
{
    if events.len() == 0 {
        s
    } else {
        step(hotkey, run(hotkey, s, events.drop_last()), events.last()).0
    }
}

/// How many activations the matcher emits over `events`, starting from `s`.
pub open spec fn activation_count(hotkey: Hotkey, s: MatcherState, events: Seq<KeyEvent>) -> nat
    decreases events.len(),
{
    if events.len() == 0 {
        0
    } else {
        let before = events.drop_last();
        let fired = step(hotkey, run(hotkey, s, before), events.last()).1;
        activation_count(hotkey, s, before) + if fired { 1nat } else { 0nat }
    }
}

/// Event `i` is a Down of the hotkey's key that arrives while exactly the
/// hotkey's modifiers are held.
pub open spec fn presses_hotkey_at(
    hotkey: Hotkey,
    s: MatcherState,
    events: Seq<KeyEvent>,
    i: int,
) -> bool {
    &&& events[i].transition is Down
    &&& events[i].key_code == hotkey.key_code
    &&& modifiers_match(hotkey, run(hotkey, s, events.take(i)).modifiers)
}

/// A Down transition of `key_code`.
pub open spec fn down(key_code: i32, timestamp: u64) -> KeyEvent {
    KeyEvent { key_code, transition: Transition::Down, timestamp }
}

/// An Up transition of `key_code`.
pub open spec fn up(key_code: i32, timestamp: u64) -> KeyEvent {
    KeyEvent { key_code, transition: Transition::Up, timestamp }
}

/// Running the matcher keeps its state well formed.
pub proof fn lemma_run_wf(hotkey: Hotkey, s: MatcherState, events: Seq<KeyEvent>)
    requires
        s.wf(),
    ensures
        run(hotkey, s, events).wf(),
    decreases events.len(),
{
    if events.len() > 0 {
        lemma_run_wf(hotkey, s, events.drop_last());
    }
}

/// A sequence in which the hotkey's key never goes down under exactly the
/// hotkey's modifiers produces no activation, whatever else it holds.
pub proof fn lemma_unmatched_events_never_activate(
    hotkey: Hotkey,
    s: MatcherState,
    events: Seq<KeyEvent>,
)
    requires
        forall|i: int| 0 <= i < events.len() ==> !#[trigger] presses_hotkey_at(hotkey, s, events, i),
    ensures
        activation_count(hotkey, s, events) == 0,
    decreases events.len(),
{
    if events.len() > 0 {
        let before = events.drop_last();
        assert forall|i: int| 0 <= i < before.len() implies !#[trigger] presses_hotkey_at(
            hotkey,
            s,
            before,
            i,
        ) by {
            assert(before.take(i) =~= events.take(i));
            assert(!presses_hotkey_at(hotkey, s, events, i));
        }
        lemma_unmatched_events_never_activate(hotkey, s, before);
        let last = events.len() - 1;
        assert(events.take(last) =~= before);
        assert(!presses_hotkey_at(hotkey, s, events, last));
    }
}

/// A hotkey whose main key is itself a modifier never fires: transitions of
/// that key only change the modifier state.
pub proof fn lemma_modifier_main_key_never_fires(
    hotkey: Hotkey,
    s: MatcherState,
    events: Seq<KeyEvent>,
)
    requires
        !hotkey.valid(),
    ensures
        activation_count(hotkey, s, events) == 0,
    decreases events.len(),
{
    if events.len() > 0 {
        lemma_modifier_main_key_never_fires(hotkey, s, events.drop_last());
    }
}

/// In single-press mode, a press of the hotkey followed by any number of
/// repeated Down transitions of its key, with no Up between them, produces
/// exactly one activation.
pub proof fn lemma_key_repeat_activates_once(
    hotkey: Hotkey,
    s: MatcherState,
    events: Seq<KeyEvent>,
)
    requires
        hotkey.valid(),
        hotkey.mode is SinglePress,
        !s.held,
        modifiers_match(hotkey, s.modifiers),
        events.len() >= 1,
        forall|i: int|
            0 <= i < events.len() ==> (#[trigger] events[i]).transition is Down && events[i].key_code
                == hotkey.key_code,
    ensures
        activation_count(hotkey, s, events) == 1,
        run(hotkey, s, events).held,
        run(hotkey, s, events).modifiers == s.modifiers,
    decreases events.len(),
{
    let before = events.drop_last();
    assert(events.last() == events[events.len() - 1]);
    if events.len() == 1 {
        assert(before.len() == 0);
        assert(run(hotkey, s, before) == s);
        assert(activation_count(hotkey, s, before) == 0);
    } else {
        assert forall|i: int| 0 <= i < before.len() implies (#[trigger] before[i]).transition is Down
            && before[i].key_code == hotkey.key_code by {
            assert(before[i] == events[i]);
        }
        lemma_key_repeat_activates_once(hotkey, s, before);
    }
}

/// In double-press mode, two presses of the hotkey with a release between
/// them produce one activation when less than the window lies between the
/// presses, and none otherwise.
pub proof fn lemma_double_press_window(
    hotkey: Hotkey,
    s: MatcherState,
    first: u64,
    released: u64,
    second: u64,
)
    requires
        hotkey.valid(),
        hotkey.mode is DoublePress,
        !s.held,
        modifiers_match(hotkey, s.modifiers),
        s.history == PressHistory::empty(),
    ensures
        activation_count(
            hotkey,
            s,
            seq![
                down(hotkey.key_code, first),
                up(hotkey.key_code, released),
                down(hotkey.key_code, second),
            ],
        ) == (if elapsed_ms(first, second) < DOUBLE_PRESS_WINDOW_MS {
            1nat
        } else {
            0nat
        }),
{
    let k = hotkey.key_code;
    let e3 = seq![down(k, first), up(k, released), down(k, second)];
    let e2 = seq![down(k, first), up(k, released)];
    let e1 = seq![down(k, first)];
    let e0 = Seq::<KeyEvent>::empty();
    assert(e3.drop_last() =~= e2);
    assert(e2.drop_last() =~= e1);
    assert(e1.drop_last() =~= e0);
    assert(e3.last() == down(k, second));
    assert(e2.last() == up(k, released));
    assert(e1.last() == down(k, first));
    assert(run(hotkey, s, e0) == s);
    assert(activation_count(hotkey, s, e0) == 0);
    let s1 = run(hotkey, s, e1);
    assert(s1 == step(hotkey, s, down(k, first)).0);
    assert(activation_count(hotkey, s, e1) == 0);
    let s2 = run(hotkey, s, e2);
    assert(s2 == step(hotkey, s1, up(k, released)).0);
    assert(activation_count(hotkey, s, e2) == 0);
    assert(s2.history == (PressHistory { last_timestamp: Some(first), count: 1 }));
}

/// The detector's state after `events`, starting from `d`.
pub open spec fn detector_run(hotkey: Hotkey, d: DetectorState, events: Seq<KeyEvent>) -> DetectorState
    decreases events.len(),
{
    if events.len() == 0 {
        d
    } else {
        detector_step(hotkey, detector_run(hotkey, d, events.drop_last()), events.last()).0
    }
}

/// The timestamps of the activations that leave the detector over `events`,
/// in order, starting from `d`.
pub open spec fn emitted(hotkey: Hotkey, d: DetectorState, events: Seq<KeyEvent>) -> Seq<u64>
    decreases events.len(),
{
    if events.len() == 0 {
        Seq::empty()
    } else {
        let before = events.drop_last();
        let out = emitted(hotkey, d, before);
        if detector_step(hotkey, detector_run(hotkey, d, before), events.last()).1 {
            out.push(events.last().timestamp)
        } else {
            out
        }
    }
}

/// No activation leaves the detector within the cooldown of an earlier one:
/// any two emitted activations lie at least the cooldown apart, and the
/// first lies at least that far from the one the debounce gate started with.
pub proof fn lemma_activations_spaced(hotkey: Hotkey, d: DetectorState, events: Seq<KeyEvent>)
    ensures
        forall|i: int, j: int|
            0 <= i < j < emitted(hotkey, d, events).len() ==> emitted(hotkey, d, events)[j]
                - emitted(hotkey, d, events)[i] >= DEBOUNCE_DELAY_MS,
        forall|j: int|
            0 <= j < emitted(hotkey, d, events).len() && d.last_activation is Some ==> emitted(
                hotkey,
                d,
                events,
            )[j] - d.last_activation->0 >= DEBOUNCE_DELAY_MS,
        detector_run(hotkey, d, events).last_activation == (if emitted(hotkey, d, events).len() > 0 {
            Some(emitted(hotkey, d, events).last())
        } else {
            d.last_activation
        }),
    decreases events.len(),
{
    if events.len() > 0 {
        lemma_activations_spaced(hotkey, d, events.drop_last());
    }
}

/// The detector emits an activation only where its matcher fires: putting
/// the debounce gate behind the matcher never adds one.
pub proof fn lemma_gate_only_removes(hotkey: Hotkey, d: DetectorState, events: Seq<KeyEvent>)
    ensures
        detector_run(hotkey, d, events).matcher == run(hotkey, d.matcher, events),
        emitted(hotkey, d, events).len() <= activation_count(hotkey, d.matcher, events),
    decreases events.len(),
{
    if events.len() > 0 {
        lemma_gate_only_removes(hotkey, d, events.drop_last());
    }
}

} // verus!
