use keyremap::dispatch::HookDispatcher;
use keyremap::keys::Transition;
use keyremap::keys::VK_CONVERT;
use keyremap::keys::VK_DOWN;
use keyremap::keys::VK_I;
use keyremap::keys::VK_J;
use keyremap::keys::VK_K;
use keyremap::keys::VK_L;
use keyremap::keys::VK_LEFT;
use keyremap::keys::VK_NONCONVERT;
use keyremap::keys::VK_RIGHT;
use keyremap::keys::VK_UP;
use keyremap::remap::RemapTable;
use keyremap::state::KeyState;

fn dispatcher() -> HookDispatcher {
    HookDispatcher::new(RemapTable::standard())
}

#[test]
fn convert_then_i_synthesizes_up_arrow() {
    let d = dispatcher();
    let mut s = KeyState::new();
    let gate = d.dispatch(&mut s, VK_CONVERT, Transition::Down);
    assert!(!gate.suppress);
    assert_eq!(gate.synth, None);
    let trig = d.dispatch(&mut s, VK_I, Transition::Down);
    assert!(trig.suppress);
    assert_eq!(trig.synth, Some(VK_UP));
    assert!(s.convert_pressed);
}

#[test]
fn i_without_gate_is_forwarded() {
    let d = dispatcher();
    let mut s = KeyState::new();
    let out = d.dispatch(&mut s, VK_I, Transition::Down);
    assert!(!out.suppress);
    assert_eq!(out.synth, None);
    assert!(!s.convert_pressed);
    assert!(!s.nonconvert_pressed);
}

#[test]
fn gate_release_stops_remapping() {
    let d = dispatcher();
    let mut s = KeyState::new();
    d.dispatch(&mut s, VK_CONVERT, Transition::Down);
    let first_k = d.dispatch(&mut s, VK_K, Transition::Down);
    assert!(first_k.suppress);
    assert_eq!(first_k.synth, Some(VK_DOWN));
    let release = d.dispatch(&mut s, VK_CONVERT, Transition::Up);
    assert!(!release.suppress);
    assert!(!s.convert_pressed);
    let second_k = d.dispatch(&mut s, VK_K, Transition::Down);
    assert!(!second_k.suppress);
    assert_eq!(second_k.synth, None);
}

#[test]
fn rapid_gate_toggle_ends_pressed_without_synthesis() {
    let d = dispatcher();
    let mut s = KeyState::new();
    let o1 = d.dispatch(&mut s, VK_CONVERT, Transition::Down);
    let o2 = d.dispatch(&mut s, VK_CONVERT, Transition::Up);
    let o3 = d.dispatch(&mut s, VK_CONVERT, Transition::Down);
    assert!(s.convert_pressed);
    assert_eq!(o1.synth, None);
    assert_eq!(o2.synth, None);
    assert_eq!(o3.synth, None);
    assert!(!o1.suppress && !o2.suppress && !o3.suppress);
}

#[test]
fn releasing_a_released_gate_is_a_no_op() {
    let d = dispatcher();
    let mut s = KeyState::new();
    let out = d.dispatch(&mut s, VK_CONVERT, Transition::Up);
    assert!(!out.suppress);
    assert_eq!(out.synth, None);
    assert!(!s.convert_pressed);
    assert!(!s.nonconvert_pressed);
}

#[test]
fn unrelated_key_passes_untouched() {
    let d = dispatcher();
    let mut s = KeyState::new();
    d.dispatch(&mut s, VK_CONVERT, Transition::Down);
    let letter_a: u16 = 0x41;
    let out = d.dispatch(&mut s, letter_a, Transition::Down);
    assert!(!out.suppress);
    assert_eq!(out.synth, None);
    assert!(s.convert_pressed);
    assert!(!s.nonconvert_pressed);
}

#[test]
fn key_up_of_a_trigger_is_forwarded() {
    let d = dispatcher();
    let mut s = KeyState::new();
    d.dispatch(&mut s, VK_CONVERT, Transition::Down);
    let out = d.dispatch(&mut s, VK_I, Transition::Up);
    assert!(!out.suppress);
    assert_eq!(out.synth, None);
}

#[test]
fn nonconvert_gate_is_tracked_but_maps_nothing() {
    let d = dispatcher();
    let mut s = KeyState::new();
    d.dispatch(&mut s, VK_NONCONVERT, Transition::Down);
    assert!(s.nonconvert_pressed);
    let out = d.dispatch(&mut s, VK_I, Transition::Down);
    assert!(!out.suppress);
    assert_eq!(out.synth, None);
    let release = d.dispatch(&mut s, VK_NONCONVERT, Transition::Up);
    assert!(!release.suppress);
    assert!(!s.nonconvert_pressed);
}

#[test]
fn all_four_triggers_map_to_arrows() {
    let d = dispatcher();
    let mut s = KeyState::new();
    d.dispatch(&mut s, VK_CONVERT, Transition::Down);
    assert_eq!(d.dispatch(&mut s, VK_I, Transition::Down).synth, Some(VK_UP));
    assert_eq!(d.dispatch(&mut s, VK_K, Transition::Down).synth, Some(VK_DOWN));
    assert_eq!(d.dispatch(&mut s, VK_J, Transition::Down).synth, Some(VK_LEFT));
    assert_eq!(d.dispatch(&mut s, VK_L, Transition::Down).synth, Some(VK_RIGHT));
}

#[test]
fn gate_flag_follows_last_event() {
    let d = dispatcher();
    let mut s = KeyState::new();
    let history = [
        (Transition::Down, true),
        (Transition::Down, true),
        (Transition::Up, false),
        (Transition::Up, false),
        (Transition::Down, true),
        (Transition::Up, false),
    ];
    for (t, expected) in history {
        d.dispatch(&mut s, VK_CONVERT, t);
        assert_eq!(s.convert_pressed, expected);
    }
}

#[test]
fn suppression_happens_exactly_with_synthesis() {
    let d = dispatcher();
    let every_vk: [u16; 7] = [VK_CONVERT, VK_NONCONVERT, VK_I, VK_J, VK_K, VK_L, 0x41];
    for gate_down in [false, true] {
        for vk in every_vk {
            for t in [Transition::Down, Transition::Up] {
                let mut s = KeyState::new();
                if gate_down {
                    d.dispatch(&mut s, VK_CONVERT, Transition::Down);
                }
                let out = d.dispatch(&mut s, vk, t);
                assert_eq!(out.suppress, out.synth.is_some());
            }
        }
    }
}
