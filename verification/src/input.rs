//! Translation of backend key codes, modifiers and characters for the GUI.

use crate::backend::{KeyCode, KeyMods, Target};
use crate::geometry::{Seconds, Vec2};
use crate::gui::{Key, Modifiers, RawInput, RawInputView};
use vstd::prelude::*;

verus! {

/// Whether `chr` lies in one of Unicode's three private-use areas.
pub open spec fn in_private_use_area(chr: char) -> bool {
    ||| 0xe000 <= chr as u32 <= 0xf8ff
    ||| 0xf0000 <= chr as u32 <= 0xffffd
    ||| 0x100000 <= chr as u32 <= 0x10fffd
}

/// Whether `chr` is an ASCII control character: below the space, or the delete character.
pub open spec fn is_ascii_control(chr: char) -> bool {
    chr as u32 <= 0x1f || chr as u32 == 0x7f
}

/// Whether a character typed on the backend is text for the GUI.
pub open spec fn printable(chr: char) -> bool {
    !in_private_use_area(chr) && !is_ascii_control(chr)
}

/// The backend reports special keys (backspace, delete, the function keys) as characters too:
/// those, and the line break and tabulator, are no text.
pub fn is_printable_char(chr: char) -> (printable: bool)
    ensures
        printable == self::printable(chr),
{
    let code: u32 = chr as u32;
    let is_in_private_use_area = 0xe000 <= code && code <= 0xf8ff
        || 0xf0000 <= code && code <= 0xffffd
        || 0x100000 <= code && code <= 0x10fffd;
    let is_control = code <= 0x1f || code == 0x7f;
    !is_in_private_use_area && !is_control
}

/// The GUI's reading of the backend's modifier keys. The logo key is the command key on a
/// Mac and nothing elsewhere, where the control key is the key for shortcuts.
pub open spec fn modifiers_for(keymods: KeyMods, target: Target) -> Modifiers {
    Modifiers {
        alt: keymods.alt,
        ctrl: keymods.ctrl,
        shift: keymods.shift,
        mac_cmd: keymods.logo && target == Target::MacOs,
        command: if target == Target::MacOs {
            keymods.logo
        } else {
            keymods.ctrl
        },
    }
}

/// Translates the backend's modifier keys for the GUI.
pub fn egui_modifiers_from_mq_modifiers(keymods: KeyMods, target: Target) -> (modifiers: Modifiers)
    ensures
        modifiers == modifiers_for(keymods, target),
{
    let mac = match target {
        Target::MacOs => true,
        _ => false,
    };
    Modifiers {
        alt: keymods.alt,
        ctrl: keymods.ctrl,
        shift: keymods.shift,
        mac_cmd: keymods.logo && mac,
        command: if mac {
            keymods.logo
        } else {
            keymods.ctrl
        },
    }
}

/// The GUI's key for a key of the backend. Keys that the GUI has no name for have none.
pub open spec fn key_for(key: KeyCode) -> Option<Key> {
    match key {
        KeyCode::Down => Some(Key::ArrowDown),
        KeyCode::Left => Some(Key::ArrowLeft),
        KeyCode::Right => Some(Key::ArrowRight),
        KeyCode::Up => Some(Key::ArrowUp),
        KeyCode::Escape => Some(Key::Escape),
        KeyCode::Tab => Some(Key::Tab),
        KeyCode::Backspace => Some(Key::Backspace),
        KeyCode::Enter => Some(Key::Enter),
        KeyCode::Space => Some(Key::Space),
        KeyCode::Insert => Some(Key::Insert),
        KeyCode::Delete => Some(Key::Delete),
        KeyCode::Home => Some(Key::Home),
        KeyCode::End => Some(Key::End),
        KeyCode::PageUp => Some(Key::PageUp),
        KeyCode::PageDown => Some(Key::PageDown),
        KeyCode::Key0 => Some(Key::Num0),
        KeyCode::Key1 => Some(Key::Num1),
        KeyCode::Key2 => Some(Key::Num2),
        KeyCode::Key3 => Some(Key::Num3),
        KeyCode::Key4 => Some(Key::Num4),
        KeyCode::Key5 => Some(Key::Num5),
        KeyCode::Key6 => Some(Key::Num6),
        KeyCode::Key7 => Some(Key::Num7),
        KeyCode::Key8 => Some(Key::Num8),
        KeyCode::Key9 => Some(Key::Num9),
        KeyCode::A => Some(Key::A),
        KeyCode::B => Some(Key::B),
        KeyCode::C => Some(Key::C),
        KeyCode::D => Some(Key::D),
        KeyCode::E => Some(Key::E),
        KeyCode::F => Some(Key::F),
        KeyCode::G => Some(Key::G),
        KeyCode::H => Some(Key::H),
        KeyCode::I => Some(Key::I),
        KeyCode::J => Some(Key::J),
        KeyCode::K => Some(Key::K),
        KeyCode::L => Some(Key::L),
        KeyCode::M => Some(Key::M),
        KeyCode::N => Some(Key::N),
        KeyCode::O => Some(Key::O),
        KeyCode::P => Some(Key::P),
        KeyCode::Q => Some(Key::Q),
        KeyCode::R => Some(Key::R),
        KeyCode::S => Some(Key::S),
        KeyCode::T => Some(Key::T),
        KeyCode::U => Some(Key::U),
        KeyCode::V => Some(Key::V),
        KeyCode::W => Some(Key::W),
        KeyCode::X => Some(Key::X),
        KeyCode::Y => Some(Key::Y),
        KeyCode::Z => Some(Key::Z),
        KeyCode::Comma => Some(Key::Comma),
        KeyCode::Backslash => Some(Key::Backslash),
        KeyCode::LeftBracket => Some(Key::OpenBracket),
        KeyCode::RightBracket => Some(Key::CloseBracket),
        KeyCode::GraveAccent => Some(Key::Backtick),
        KeyCode::Minus => Some(Key::Minus),
        KeyCode::Period => Some(Key::Period),
        KeyCode::Equal => Some(Key::Equals),
        KeyCode::Semicolon => Some(Key::Semicolon),
        _ => None,
    }
}

/// Translates a key of the backend for the GUI, if the GUI has a name for it.
pub fn egui_key_from_mq_key(key: KeyCode) -> (mapped: Option<Key>)
    ensures
        mapped == key_for(key),
{
    Some(
        match key {
            KeyCode::Down => Key::ArrowDown,
            KeyCode::Left => Key::ArrowLeft,
            KeyCode::Right => Key::ArrowRight,
            KeyCode::Up => Key::ArrowUp,
            KeyCode::Escape => Key::Escape,
            KeyCode::Tab => Key::Tab,
            KeyCode::Backspace => Key::Backspace,
            KeyCode::Enter => Key::Enter,
            KeyCode::Space => Key::Space,
            KeyCode::Insert => Key::Insert,
            KeyCode::Delete => Key::Delete,
            KeyCode::Home => Key::Home,
            KeyCode::End => Key::End,
            KeyCode::PageUp => Key::PageUp,
            KeyCode::PageDown => Key::PageDown,
            KeyCode::Key0 => Key::Num0,
            KeyCode::Key1 => Key::Num1,
            KeyCode::Key2 => Key::Num2,
            KeyCode::Key3 => Key::Num3,
            KeyCode::Key4 => Key::Num4,
            KeyCode::Key5 => Key::Num5,
            KeyCode::Key6 => Key::Num6,
            KeyCode::Key7 => Key::Num7,
            KeyCode::Key8 => Key::Num8,
            KeyCode::Key9 => Key::Num9,
            KeyCode::A => Key::A,
            KeyCode::B => Key::B,
            KeyCode::C => Key::C,
            KeyCode::D => Key::D,
            KeyCode::E => Key::E,
            KeyCode::F => Key::F,
            KeyCode::G => Key::G,
            KeyCode::H => Key::H,
            KeyCode::I => Key::I,
            KeyCode::J => Key::J,
            KeyCode::K => Key::K,
            KeyCode::L => Key::L,
            KeyCode::M => Key::M,
            KeyCode::N => Key::N,
            KeyCode::O => Key::O,
            KeyCode::P => Key::P,
            KeyCode::Q => Key::Q,
            KeyCode::R => Key::R,
            KeyCode::S => Key::S,
            KeyCode::T => Key::T,
            KeyCode::U => Key::U,
            KeyCode::V => Key::V,
            KeyCode::W => Key::W,
            KeyCode::X => Key::X,
            KeyCode::Y => Key::Y,
            KeyCode::Z => Key::Z,
            KeyCode::Comma => Key::Comma,
            KeyCode::Backslash => Key::Backslash,
            KeyCode::LeftBracket => Key::OpenBracket,
            KeyCode::RightBracket => Key::CloseBracket,
            KeyCode::GraveAccent => Key::Backtick,
            KeyCode::Minus => Key::Minus,
            KeyCode::Period => Key::Period,
            KeyCode::Equal => Key::Equals,
            KeyCode::Semicolon => Key::Semicolon,
            _ => {
                return None;
            },
        },
    )
}

/// Notes what the backend reports at the start of a frame: the size of the screen in
/// logical points, and its clock.
pub fn on_frame_start(egui_input: &mut RawInput, screen_size_in_points: Vec2, time: Seconds)
    ensures
        final(egui_input)@ == (RawInputView {
            screen_size: Some(screen_size_in_points),
            time: Some(time),
            ..old(egui_input)@
        }),
{
    egui_input.screen_size = Some(screen_size_in_points);
    egui_input.time = Some(time);
}

} // verus!
