//! The backend's side of the boundary: what it reports and what it is asked to do.

use vstd::prelude::*;

verus! {

/// How the backend samples a texture.
#[derive(Clone, Copy, Debug, PartialEq, Eq, Structural, Hash)]
pub enum FilterMode {
    Nearest,
    Linear,
}

/// What the backend samples outside a texture's edges.
#[derive(Clone, Copy, Debug, PartialEq, Eq, Structural, Hash)]
pub enum TextureWrap {
    Repeat,
    Mirror,
    Clamp,
}

/// How the bytes of a texture are laid out.
#[derive(Clone, Copy, Debug, PartialEq, Eq, Structural, Hash)]
pub enum TextureFormat {
    Rgb8,
    Rgba8,
}

/// What the backend needs to know to allocate a texture.
#[derive(Clone, Copy, Debug, PartialEq, Eq, Structural, Hash)]
pub struct TextureParams {
    pub format: TextureFormat,
    pub wrap: TextureWrap,
    pub min_filter: FilterMode,
    pub mag_filter: FilterMode,
    pub width: usize,
    pub height: usize,
}

/// One request to the backend about a texture. A slot is the cache's name for a backend
/// texture: the caller keeps, for each slot, the handle that the backend gave for it.
#[derive(Clone, Debug, PartialEq, Eq)]
pub enum TextureCommand {
    /// Allocate a texture from `data` and keep its handle under `slot`.
    Create { slot: usize, params: TextureParams, data: Vec<u8> },
    /// Replace the texels of the rectangle at (`x`, `y`) in the texture under `slot`.
    UpdatePart { slot: usize, x: usize, y: usize, width: usize, height: usize, data: Vec<u8> },
    /// Destroy the texture under `slot`; the slot is free afterwards.
    Delete { slot: usize },
    /// Nothing to do but report it: a patch came for a texture that the cache does not hold.
    NotFound { id: crate::gui::TextureId },
}

/// A texture command with its bytes as a sequence.
pub enum TextureCommandView {
    Create { slot: usize, params: TextureParams, data: Seq<u8> },
    UpdatePart { slot: usize, x: usize, y: usize, width: usize, height: usize, data: Seq<u8> },
    Delete { slot: usize },
    NotFound { id: crate::gui::TextureId },
}

impl View for TextureCommand {
    type V = TextureCommandView;

    open spec fn view(&self) -> TextureCommandView {
        match self {
            TextureCommand::Create { slot, params, data } => TextureCommandView::Create {
                slot: *slot,
                params: *params,
                data: data@,
            },
            TextureCommand::UpdatePart {
                slot,
                x,
                y,
                width,
                height,
                data,
            } => TextureCommandView::UpdatePart {
                slot: *slot,
                x: *x,
                y: *y,
                width: *width,
                height: *height,
                data: data@,
            },
            TextureCommand::Delete { slot } => TextureCommandView::Delete { slot: *slot },
            TextureCommand::NotFound { id } => TextureCommandView::NotFound { id: *id },
        }
    }
}

/// The views of a list of texture commands, in order.
pub open spec fn texture_command_views(commands: Seq<TextureCommand>) -> Seq<TextureCommandView> {
    Seq::new(commands.len(), |i: int| commands[i]@)
}

/// A key of the keyboard, as the backend names it.
#[derive(Clone, Copy, Debug, PartialEq, Eq, Structural, Hash)]
pub enum KeyCode {
    Space,
    Apostrophe,
    Comma,
    Minus,
    Period,
    Slash,
    Key0,
    Key1,
    Key2,
    Key3,
    Key4,
    Key5,
    Key6,
    Key7,
    Key8,
    Key9,
    Semicolon,
    Equal,
    A,
    B,
    C,
    D,
    E,
    F,
    G,
    H,
    I,
    J,
    K,
    L,
    M,
    N,
    O,
    P,
    Q,
    R,
    S,
    T,
    U,
    V,
    W,
    X,
    Y,
    Z,
    LeftBracket,
    Backslash,
    RightBracket,
    GraveAccent,
    World1,
    World2,
    Escape,
    Enter,
    Tab,
    Backspace,
    Insert,
    Delete,
    Right,
    Left,
    Down,
    Up,
    PageUp,
    PageDown,
    Home,
    End,
    CapsLock,
    ScrollLock,
    NumLock,
    PrintScreen,
    Pause,
    F1,
    F2,
    F3,
    F4,
    F5,
    F6,
    F7,
    F8,
    F9,
    F10,
    F11,
    F12,
    F13,
    F14,
    F15,
    F16,
    F17,
    F18,
    F19,
    F20,
    F21,
    F22,
    F23,
    F24,
    F25,
    Kp0,
    Kp1,
    Kp2,
    Kp3,
    Kp4,
    Kp5,
    Kp6,
    Kp7,
    Kp8,
    Kp9,
    KpDecimal,
    KpDivide,
    KpMultiply,
    KpSubtract,
    KpAdd,
    KpEnter,
    KpEqual,
    LeftShift,
    LeftControl,
    LeftAlt,
    LeftSuper,
    RightShift,
    RightControl,
    RightAlt,
    RightSuper,
    Menu,
    /// The back button of a handheld device.
    Back,
    Unknown,
}

/// Which modifier keys were down when the backend reported a key.
#[derive(Clone, Copy, Debug, PartialEq, Eq, Structural, Hash)]
pub struct KeyMods {
    pub shift: bool,
    pub ctrl: bool,
    pub alt: bool,
    pub logo: bool,
}

/// A button of the mouse, as the backend names it.
#[derive(Clone, Copy, Debug, PartialEq, Eq, Structural, Hash)]
pub enum MouseButton {
    Left,
    Middle,
    Right,
    Unknown,
}

/// The cursor shapes that the backend can show.
#[derive(Clone, Copy, Debug, PartialEq, Eq, Structural, Hash)]
pub enum CursorIcon {
    Default,
    Help,
    Pointer,
    Wait,
    Crosshair,
    Text,
    Move,
    NotAllowed,
    EWResize,
    NSResize,
    NESWResize,
    NWSEResize,
}

/// The kind of system the program runs on, as far as input handling depends on it.
#[derive(Clone, Copy, Debug, PartialEq, Eq, Structural, Hash)]
pub enum Target {
    /// Embedded in a web page.
    Web,
    /// A native program on macOS, where the logo key is the command key.
    MacOs,
    /// A native program elsewhere.
    Native,
}

} // verus!
