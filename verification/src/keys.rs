//! Virtual key codes, hook message codes, and the basic event vocabulary.

use vstd::prelude::*;

verus! {

/// Virtual key code of the IME convert key (a gate key).
pub const VK_CONVERT: u16 = 0x1C;
/// Virtual key code of the IME non-convert key (a gate key).
pub const VK_NONCONVERT: u16 = 0x1D;
/// Virtual key code of the letter I.
pub const VK_I: u16 = 0x49;
/// Virtual key code of the letter J.
pub const VK_J: u16 = 0x4A;
/// Virtual key code of the letter K.
pub const VK_K: u16 = 0x4B;
/// Virtual key code of the letter L.
pub const VK_L: u16 = 0x4C;
/// Virtual key code of the up arrow.
pub const VK_UP: u16 = 0x26;
/// Virtual key code of the left arrow.
pub const VK_LEFT: u16 = 0x25;
/// Virtual key code of the down arrow.
pub const VK_DOWN: u16 = 0x28;
/// Virtual key code of the right arrow.
pub const VK_RIGHT: u16 = 0x27;

/// Hook message code for an ordinary key-down event.
pub const WM_KEYDOWN: usize = 0x100;
/// Hook message code for an ordinary key-up event.
pub const WM_KEYUP: usize = 0x101;
/// Hook message code for a system key-down event (Alt held).
pub const WM_SYSKEYDOWN: usize = 0x104;
/// Hook message code for a system key-up event (Alt held).
pub const WM_SYSKEYUP: usize = 0x105;

/// The direction of a key transition: the key went down or came up.
#[derive(Clone, Copy, PartialEq, Eq, Structural, Debug)]
pub enum Transition {
    Down,
    Up,
}

/// A modifier key whose pressed state gates remapping.
#[derive(Clone, Copy, PartialEq, Eq, Structural, Debug)]
pub enum ModifierKey {
    Convert,
    NonConvert,
}

/// The virtual key code carried by a gate key.
pub open spec fn spec_gate_vk(gate: ModifierKey) -> u16 {
    match gate {
        ModifierKey::Convert => VK_CONVERT,
        ModifierKey::NonConvert => VK_NONCONVERT,
    }
}

/// Whether a virtual key code belongs to some gate key.
pub open spec fn spec_is_gate_vk(vk: u16) -> bool {
    vk == VK_CONVERT || vk == VK_NONCONVERT
}

/// Which modifier, if either, owns this key code.
pub open spec fn spec_gate_of_vk(vk: u16) -> Option<ModifierKey> {
    if vk == VK_CONVERT {
        Some(ModifierKey::Convert)
    } else if vk == VK_NONCONVERT {
        Some(ModifierKey::NonConvert)
    } else {
        None
    }
}

/// The virtual key code of a gate key.
pub fn gate_vk(gate: ModifierKey) -> (vk: u16)
    ensures
        vk == spec_gate_vk(gate),
{
    match gate {
        ModifierKey::Convert => VK_CONVERT,
        ModifierKey::NonConvert => VK_NONCONVERT,
    }
}

/// Which modifier, if either, owns this key code.
pub fn gate_of_vk(vk: u16) -> (gate: Option<ModifierKey>)
    ensures
        gate == spec_gate_of_vk(vk),
{
    if vk == VK_CONVERT {
        Some(ModifierKey::Convert)
    } else if vk == VK_NONCONVERT {
        Some(ModifierKey::NonConvert)
    } else {
        None
    }
}

/// What a hook message code means, if it is a key transition at all.
pub open spec fn spec_classify_message(message: usize) -> Option<Transition> {
    if message == WM_KEYDOWN || message == WM_SYSKEYDOWN {
        Some(Transition::Down)
    } else if message == WM_KEYUP || message == WM_SYSKEYUP {
        Some(Transition::Up)
    } else {
        None
    }
}

/// Reads the transition out of a raw hook message code. A code that is
/// neither a key-down nor a key-up message yields `None`.
pub fn classify_message(message: usize) -> (t: Option<Transition>)
    ensures
        t == spec_classify_message(message),
{
    if message == WM_KEYDOWN || message == WM_SYSKEYDOWN {
        Some(Transition::Down)
    } else if message == WM_KEYUP || message == WM_SYSKEYUP {
        Some(Transition::Up)
    } else {
        None
    }
}

} // verus!
