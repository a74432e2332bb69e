//! The GUI's side of the boundary: what it is told each frame and what it hands back.

use crate::geometry::{Pos2, Scalar, Seconds, Vec2};
use vstd::prelude::*;

verus! {

/// The GUI's name for a texture.
#[derive(Clone, Copy, Debug, PartialEq, Eq, Structural, Hash)]
pub enum TextureId {
    /// A texture that the GUI allocates and frees itself, such as its font atlas.
    Managed(u64),
    /// A texture that the host owns; the number is the backend's own name for it.
    User(u64),
}

/// How a texture is sampled when it is drawn larger or smaller than it is.
#[derive(Clone, Copy, Debug, PartialEq, Eq, Structural, Hash)]
pub enum TextureFilter {
    Nearest,
    Linear,
}

/// A colour image: one premultiplied RGBA quadruple for each texel, row by row.
#[derive(Clone, Debug, PartialEq, Eq)]
pub struct ColorImage {
    pub width: usize,
    pub height: usize,
    pub pixels: Vec<[u8; 4]>,
}

/// A font atlas: one coverage value from 0 to 255 for each texel, row by row.
#[derive(Clone, Debug, PartialEq, Eq)]
pub struct FontImage {
    pub width: usize,
    pub height: usize,
    pub pixels: Vec<u8>,
}

/// The pixels of a texture or of a patch of one.
#[derive(Clone, Debug, PartialEq, Eq)]
pub enum ImageData {
    Color(ColorImage),
    Font(FontImage),
}

/// A change to one texture: the whole of it where `pos` is `None`, else a patch whose top
/// left corner lies at `pos`.
#[derive(Clone, Debug, PartialEq, Eq)]
pub struct ImageDelta {
    pub image: ImageData,
    pub magnification: TextureFilter,
    pub pos: Option<(usize, usize)>,
}

/// The texture changes of one or more frames: `set` is applied before painting, in order,
/// and `free` after it.
#[derive(Clone, Debug, PartialEq, Eq)]
pub struct TexturesDelta {
    pub set: Vec<(TextureId, ImageDelta)>,
    pub free: Vec<TextureId>,
}

/// The bytes of a colour image: the four channels of each texel in turn.
pub open spec fn color_bytes(pixels: Seq<[u8; 4]>) -> Seq<u8> {
    Seq::new(4 * pixels.len(), |i: int| pixels[i / 4][i % 4])
}

/// The bytes of a font atlas as white under its coverage: each of the four channels of a
/// texel is the texel's coverage.
pub open spec fn coverage_bytes(pixels: Seq<u8>) -> Seq<u8> {
    Seq::new(4 * pixels.len(), |i: int| pixels[i / 4])
}

impl ImageData {
    pub open spec fn spec_width(&self) -> usize {
        match self {
            ImageData::Color(image) => image.width,
            ImageData::Font(image) => image.width,
        }
    }

    pub open spec fn spec_height(&self) -> usize {
        match self {
            ImageData::Color(image) => image.height,
            ImageData::Font(image) => image.height,
        }
    }

    /// How many texels the image holds.
    pub open spec fn texels(&self) -> nat {
        match self {
            ImageData::Color(image) => image.pixels@.len(),
            ImageData::Font(image) => image.pixels@.len(),
        }
    }

    /// The image holds one texel for each place of its width times its height.
    pub open spec fn well_formed(&self) -> bool {
        self.spec_width() * self.spec_height() == self.texels()
    }

    /// The image as flat RGBA bytes, as the backend takes it.
    pub open spec fn rgba(&self) -> Seq<u8> {
        match self {
            ImageData::Color(image) => color_bytes(image.pixels@),
            ImageData::Font(image) => coverage_bytes(image.pixels@),
        }
    }

    #[verifier::when_used_as_spec(spec_width)]
    pub fn width(&self) -> (width: usize)
        ensures
            width == self.spec_width(),
    {
        match self {
            ImageData::Color(image) => image.width,
            ImageData::Font(image) => image.width,
        }
    }

    #[verifier::when_used_as_spec(spec_height)]
    pub fn height(&self) -> (height: usize)
        ensures
            height == self.spec_height(),
    {
        match self {
            ImageData::Color(image) => image.height,
            ImageData::Font(image) => image.height,
        }
    }

    /// Tells whether the texel count is the product of width and height.
    pub fn is_well_formed(&self) -> (ok: bool)
        ensures
            ok == self.well_formed(),
    {
        let count: usize = match self {
            ImageData::Color(image) => image.pixels.len(),
            ImageData::Font(image) => image.pixels.len(),
        };
        match self.width().checked_mul(self.height()) {
            Some(product) => product == count,
            None => false,
        }
    }
}

/// A key of the keyboard, as the GUI names it.
#[derive(Clone, Copy, Debug, PartialEq, Eq, Structural, Hash)]
pub enum Key {
    ArrowDown,
    ArrowLeft,
    ArrowRight,
    ArrowUp,
    Escape,
    Tab,
    Backspace,
    Enter,
    Space,
    Insert,
    Delete,
    Home,
    End,
    PageUp,
    PageDown,
    Num0,
    Num1,
    Num2,
    Num3,
    Num4,
    Num5,
    Num6,
    Num7,
    Num8,
    Num9,
    A,
    B,
    C,
    D,
    E,
    F,
    G,
    H,
    I,
    J,
    K,
    L,
    M,
    N,
    O,
    P,
    Q,
    R,
    S,
    T,
    U,
    V,
    W,
    X,
    Y,
    Z,
    Comma,
    Backslash,
    OpenBracket,
    CloseBracket,
    Backtick,
    Minus,
    Period,
    Equals,
    Semicolon,
}

/// The state of the modifier keys, as the GUI reads it.
#[derive(Clone, Copy, Debug, PartialEq, Eq, Structural, Hash)]
pub struct Modifiers {
    pub alt: bool,
    pub ctrl: bool,
    pub shift: bool,
    /// The command key of a Mac; never set elsewhere.
    pub mac_cmd: bool,
    /// The key for shortcuts: the command key on a Mac, the control key elsewhere.
    pub command: bool,
}

/// A button of the pointer, as the GUI names it.
#[derive(Clone, Copy, Debug, PartialEq, Eq, Structural, Hash)]
pub enum PointerButton {
    Primary,
    Secondary,
    Middle,
}

/// The cursor shapes that the GUI can ask for.
#[derive(Clone, Copy, Debug, PartialEq, Eq, Structural, Hash)]
pub enum CursorIcon {
    Default,
    /// No cursor at all.
    Hidden,
    ContextMenu,
    Help,
    PointingHand,
    Progress,
    Wait,
    Cell,
    Crosshair,
    Text,
    VerticalText,
    Alias,
    Copy,
    Move,
    NoDrop,
    NotAllowed,
    Grab,
    Grabbing,
    AllScroll,
    ResizeHorizontal,
    ResizeNeSw,
    ResizeNwSe,
    ResizeVertical,
    ResizeEast,
    ResizeSouthEast,
    ResizeSouth,
    ResizeSouthWest,
    ResizeWest,
    ResizeNorthWest,
    ResizeNorth,
    ResizeNorthEast,
    ResizeColumn,
    ResizeRow,
    ZoomIn,
    ZoomOut,
}

impl Modifiers {
    /// No modifier key is down.
    pub open spec fn none() -> Modifiers {
        Modifiers { alt: false, ctrl: false, shift: false, mac_cmd: false, command: false }
    }
}

/// One thing that happened since the last frame, as the GUI is told it.
#[derive(Clone, Debug, PartialEq, Eq)]
pub enum Event {
    /// The user asked to copy the selection.
    Copy,
    /// The user asked to cut the selection.
    Cut,
    /// Text was typed or pasted.
    Text(String),
    Key { key: Key, pressed: bool, repeat: bool, modifiers: Modifiers },
    /// The pointer moved to a position in logical points.
    PointerMoved(Pos2),
    PointerButton { pos: Pos2, button: PointerButton, pressed: bool, modifiers: Modifiers },
    /// The wheel turned to zoom: by the factor e to the power of `turn` times `speed`
    /// over `ZOOM_DIVISOR`.
    Zoom { turn: Scalar, speed: u32 },
    /// The wheel turned to scroll: by `delta` times `speed`.
    Scroll { delta: Vec2, speed: u32, modifiers: Modifiers },
}

/// What the wheel's turn is divided by, after the speed is applied, to give the exponent
/// of a zoom factor.
pub const ZOOM_DIVISOR: u32 = 200;

/// An event with its text as a sequence.
pub enum EventView {
    Copy,
    Cut,
    Text(Seq<char>),
    Key { key: Key, pressed: bool, repeat: bool, modifiers: Modifiers },
    PointerMoved(Pos2),
    PointerButton { pos: Pos2, button: PointerButton, pressed: bool, modifiers: Modifiers },
    Zoom { turn: Scalar, speed: u32 },
    Scroll { delta: Vec2, speed: u32, modifiers: Modifiers },
}

impl View for Event {
    type V = EventView;

    open spec fn view(&self) -> EventView {
        match self {
            Event::Copy => EventView::Copy,
            Event::Cut => EventView::Cut,
            Event::Text(text) => EventView::Text(text@),
            Event::Key { key, pressed, repeat, modifiers } => EventView::Key {
                key: *key,
                pressed: *pressed,
                repeat: *repeat,
                modifiers: *modifiers,
            },
            Event::PointerMoved(pos) => EventView::PointerMoved(*pos),
            Event::PointerButton { pos, button, pressed, modifiers } => EventView::PointerButton {
                pos: *pos,
                button: *button,
                pressed: *pressed,
                modifiers: *modifiers,
            },
            Event::Zoom { turn, speed } => EventView::Zoom { turn: *turn, speed: *speed },
            Event::Scroll { delta, speed, modifiers } => EventView::Scroll {
                delta: *delta,
                speed: *speed,
                modifiers: *modifiers,
            },
        }
    }
}

/// The views of a list of events, in order.
pub open spec fn event_views(events: Seq<Event>) -> Seq<EventView> {
    Seq::new(events.len(), |i: int| events[i]@)
}

/// What the GUI is told at the start of a frame.
#[derive(Clone, Debug, PartialEq, Eq)]
pub struct RawInput {
    /// The size of the screen in logical points, where it is known.
    pub screen_size: Option<Vec2>,
    /// The backend's scale between points and pixels, where it changed.
    pub native_pixels_per_point: Option<Scalar>,
    /// The backend's clock.
    pub time: Option<Seconds>,
    pub modifiers: Modifiers,
    /// What happened since the last frame, in order.
    pub events: Vec<Event>,
}

/// The GUI's input with its events as a sequence of views.
pub struct RawInputView {
    pub screen_size: Option<Vec2>,
    pub native_pixels_per_point: Option<Scalar>,
    pub time: Option<Seconds>,
    pub modifiers: Modifiers,
    pub events: Seq<EventView>,
}

impl View for RawInput {
    type V = RawInputView;

    open spec fn view(&self) -> RawInputView {
        RawInputView {
            screen_size: self.screen_size,
            native_pixels_per_point: self.native_pixels_per_point,
            time: self.time,
            modifiers: self.modifiers,
            events: event_views(self.events@),
        }
    }
}

impl RawInputView {
    /// The input that stays behind when a frame's input is taken: the events and the
    /// screen size leave with the frame, the rest is kept.
    pub open spec fn drained(self) -> RawInputView {
        RawInputView { screen_size: None, events: Seq::empty(), ..self }
    }

    /// The input with one more event.
    pub open spec fn with_event(self, event: EventView) -> RawInputView {
        RawInputView { events: self.events.push(event), ..self }
    }
}

impl RawInput {
    /// Input that says nothing: no events, no modifiers, nothing known of the screen.
    pub fn new() -> (input: RawInput)
        ensures
            input@ == (RawInputView {
                screen_size: None,
                native_pixels_per_point: None,
                time: None,
                modifiers: Modifiers::none(),
                events: Seq::empty(),
            }),
    {
        let input = RawInput {
            screen_size: None,
            native_pixels_per_point: None,
            time: None,
            modifiers: Modifiers {
                alt: false,
                ctrl: false,
                shift: false,
                mac_cmd: false,
                command: false,
            },
            events: Vec::new(),
        };
        assert(input@.events =~= Seq::empty());
        input
    }

    /// Takes the input of a frame: what is returned holds all that was gathered, and what
    /// stays behind holds no events and no screen size.
    pub fn take(&mut self) -> (taken: RawInput)
        ensures
            taken@ == old(self)@,
            final(self)@ == old(self)@.drained(),
    {
        let mut events: Vec<Event> = Vec::new();
        std::mem::swap(&mut events, &mut self.events);
        let taken = RawInput {
            screen_size: self.screen_size,
            native_pixels_per_point: self.native_pixels_per_point,
            time: self.time,
            modifiers: self.modifiers,
            events,
        };
        self.screen_size = None;
        assert(self@.events =~= Seq::empty());
        taken
    }

    /// Appends an event.
    pub fn push(&mut self, event: Event)
        ensures
            final(self)@ == old(self)@.with_event(event@),
    {
        self.events.push(event);
        assert(self@.events =~= old(self)@.events.push(event@));
    }
}

/// A request of the GUI to the system around it.
#[derive(Clone, Debug, PartialEq, Eq)]
pub enum OutputCommand {
    OpenUrl { url: String, new_tab: bool },
    CopyText(String),
    /// Copy an image: the backend has no way to do it.
    CopyImage,
}

/// What the GUI asks of the platform after a frame.
#[derive(Clone, Debug, PartialEq, Eq)]
pub struct PlatformOutput {
    pub commands: Vec<OutputCommand>,
    pub cursor_icon: CursorIcon,
}

/// What a frame of the GUI gives back. `S` is the GUI's list of shapes, which is handed
/// on to its tessellator as it is.
#[derive(Clone, Debug, PartialEq, Eq)]
pub struct FullOutput<S> {
    pub platform_output: PlatformOutput,
    pub textures_delta: TexturesDelta,
    pub shapes: S,
    /// The scale between points and pixels that the GUI used for the frame.
    pub pixels_per_point: Scalar,
}

} // verus!
