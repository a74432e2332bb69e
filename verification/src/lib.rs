//! Glue between an immediate-mode GUI and a small windowing and graphics backend.
//!
//! Backend events are translated and gathered into the GUI's input for one frame; what the
//! GUI hands back (shapes, texture changes, cursor and clipboard requests) becomes a list of
//! commands for the backend. The crate decides and records; the caller performs the commands.

pub mod backend;
pub mod geometry;
pub mod gui;
pub mod input;
pub mod mesh;
pub mod painter;
pub mod texture;

use crate::backend::{texture_command_views, KeyCode, KeyMods, MouseButton, Target};
use crate::geometry::{same_number, Pos2, Scalar, Seconds, Vec2};
use crate::gui::{CursorIcon, Event, EventView, FullOutput, ImageDelta, Modifiers};
use crate::gui::{OutputCommand, PlatformOutput, PointerButton, RawInput, RawInputView};
use crate::gui::{TextureId, TexturesDelta};
use crate::input::{egui_key_from_mq_key, egui_modifiers_from_mq_modifiers, is_printable_char};
use crate::input::{key_for, modifiers_for, printable};
use crate::painter::{all_splittable, all_well_formed, capacities_after_primitives};
use crate::painter::{draw_command_views, free_commands, paint_commands, primitive_views};
use crate::painter::{set_commands, slots_after_free, slots_after_set};
use crate::painter::{Capacities, ClippedPrimitive, ClippedPrimitiveView, FrameCommands};
use crate::painter::{Painter, ScreenInfo};
use crate::texture::{distinct_ids, Slots};
use vstd::prelude::*;

verus! {

/// The GUI's button for a button of the backend's mouse. A button that the backend cannot
/// name counts as the primary one.
pub open spec fn button_for(mb: MouseButton) -> PointerButton {
    match mb {
        MouseButton::Left => PointerButton::Primary,
        MouseButton::Right => PointerButton::Secondary,
        MouseButton::Middle => PointerButton::Middle,
        MouseButton::Unknown => PointerButton::Primary,
    }
}

/// Translates a button of the backend's mouse for the GUI.
pub fn to_egui_button(mb: MouseButton) -> (button: PointerButton)
    ensures
        button == button_for(mb),
{
    match mb {
        MouseButton::Left => PointerButton::Primary,
        MouseButton::Right => PointerButton::Secondary,
        MouseButton::Middle => PointerButton::Middle,
        MouseButton::Unknown => PointerButton::Primary,
    }
}

/// The backend's cursor for one of the GUI's, where the backend has one like it.
pub open spec fn cursor_for(cursor_icon: CursorIcon) -> Option<crate::backend::CursorIcon> {
    match cursor_icon {
        CursorIcon::Default => Some(crate::backend::CursorIcon::Default),
        CursorIcon::PointingHand => Some(crate::backend::CursorIcon::Pointer),
        CursorIcon::Text => Some(crate::backend::CursorIcon::Text),
        CursorIcon::ResizeHorizontal => Some(crate::backend::CursorIcon::EWResize),
        CursorIcon::ResizeVertical => Some(crate::backend::CursorIcon::NSResize),
        CursorIcon::ResizeNeSw => Some(crate::backend::CursorIcon::NESWResize),
        CursorIcon::ResizeNwSe => Some(crate::backend::CursorIcon::NWSEResize),
        CursorIcon::Help => Some(crate::backend::CursorIcon::Help),
        CursorIcon::Wait => Some(crate::backend::CursorIcon::Wait),
        CursorIcon::Crosshair => Some(crate::backend::CursorIcon::Crosshair),
        CursorIcon::Move => Some(crate::backend::CursorIcon::Move),
        CursorIcon::NotAllowed => Some(crate::backend::CursorIcon::NotAllowed),
        CursorIcon::AllScroll => Some(crate::backend::CursorIcon::Move),
        CursorIcon::Progress => Some(crate::backend::CursorIcon::Wait),
        _ => None,
    }
}

/// Translates a cursor of the GUI for the backend, if the backend has one like it.
pub fn to_mq_cursor_icon(cursor_icon: CursorIcon) -> (icon: Option<crate::backend::CursorIcon>)
    ensures
        icon == cursor_for(cursor_icon),
{
    match cursor_icon {
        // The caller hides the cursor instead.
        CursorIcon::Hidden => None,
        CursorIcon::Default => Some(crate::backend::CursorIcon::Default),
        CursorIcon::PointingHand => Some(crate::backend::CursorIcon::Pointer),
        CursorIcon::Text => Some(crate::backend::CursorIcon::Text),
        CursorIcon::ResizeHorizontal => Some(crate::backend::CursorIcon::EWResize),
        CursorIcon::ResizeVertical => Some(crate::backend::CursorIcon::NSResize),
        CursorIcon::ResizeNeSw => Some(crate::backend::CursorIcon::NESWResize),
        CursorIcon::ResizeNwSe => Some(crate::backend::CursorIcon::NWSEResize),
        CursorIcon::Help => Some(crate::backend::CursorIcon::Help),
        CursorIcon::Wait => Some(crate::backend::CursorIcon::Wait),
        CursorIcon::Crosshair => Some(crate::backend::CursorIcon::Crosshair),
        CursorIcon::Move => Some(crate::backend::CursorIcon::Move),
        CursorIcon::NotAllowed => Some(crate::backend::CursorIcon::NotAllowed),
        // Similar enough.
        CursorIcon::AllScroll => Some(crate::backend::CursorIcon::Move),
        CursorIcon::Progress => Some(crate::backend::CursorIcon::Wait),
        // The backend cannot show these.
        CursorIcon::Grab | CursorIcon::Grabbing => None,
        CursorIcon::Alias
        | CursorIcon::Cell
        | CursorIcon::ContextMenu
        | CursorIcon::Copy
        | CursorIcon::NoDrop
        | CursorIcon::ResizeColumn
        | CursorIcon::ResizeEast
        | CursorIcon::ResizeNorth
        | CursorIcon::ResizeNorthEast
        | CursorIcon::ResizeNorthWest
        | CursorIcon::ResizeRow
        | CursorIcon::ResizeSouth
        | CursorIcon::ResizeSouthEast
        | CursorIcon::ResizeSouthWest
        | CursorIcon::ResizeWest
        | CursorIcon::VerticalText
        | CursorIcon::ZoomIn
        | CursorIcon::ZoomOut => None,
    }
}

/// Something for the caller to do on the platform after a frame of the GUI.
#[derive(Clone, Debug, PartialEq, Eq)]
pub enum PlatformAction {
    OpenUrl { url: String, new_tab: bool },
    SetClipboard(String),
    ShowMouse(bool),
    SetMouseCursor(crate::backend::CursorIcon),
}

/// What the platform is asked to do for one of the GUI's requests: a link is opened, text
/// that is not empty goes to the clipboard, and an image is dropped.
pub open spec fn command_actions(command: OutputCommand) -> Seq<PlatformAction> {
    match command {
        OutputCommand::OpenUrl { url, new_tab } => seq![PlatformAction::OpenUrl { url, new_tab }],
        OutputCommand::CopyText(text) => if text@.len() > 0 {
            seq![PlatformAction::SetClipboard(text)]
        } else {
            seq![]
        },
        OutputCommand::CopyImage => seq![],
    }
}

/// What the platform is asked to do for the GUI's requests, in order.
pub open spec fn commands_actions(commands: Seq<OutputCommand>) -> Seq<PlatformAction>
    decreases commands.len(),
{
    if commands.len() == 0 {
        seq![]
    } else {
        commands_actions(commands.drop_last()) + command_actions(commands.last())
    }
}

/// What becomes of the mouse cursor: hidden where the GUI wants none; left as it is for
/// the two grabbing hands, which the backend cannot show; else shown in the backend's
/// shape for it, or in the default shape where the backend has none.
pub open spec fn cursor_actions(cursor_icon: CursorIcon) -> Seq<PlatformAction> {
    match cursor_icon {
        CursorIcon::Hidden => seq![PlatformAction::ShowMouse(false)],
        CursorIcon::Grab | CursorIcon::Grabbing => seq![PlatformAction::ShowMouse(true)],
        _ => seq![
            PlatformAction::ShowMouse(true),
            PlatformAction::SetMouseCursor(
                match cursor_for(cursor_icon) {
                    Some(icon) => icon,
                    None => crate::backend::CursorIcon::Default,
                },
            ),
        ],
    }
}

/// What the platform is asked to do after a frame: the GUI's requests in order, then the
/// cursor.
pub open spec fn platform_actions(output: PlatformOutput) -> Seq<PlatformAction> {
    commands_actions(output.commands@) + cursor_actions(output.cursor_icon)
}

/// Turns what the GUI asks of the platform into what the caller has to do.
pub fn apply_platform_output(output: PlatformOutput) -> (actions: Vec<PlatformAction>)
    ensures
        actions@ == platform_actions(output),
{
    let PlatformOutput { commands, cursor_icon } = output;
    let mut actions: Vec<PlatformAction> = Vec::new();
    for command in it: commands.into_iter()
        invariant
            it.seq() == commands@,
            actions@ == commands_actions(commands@.take(it.index() as int)),
    {
        proof {
            assert(commands@.take(it.index() + 1).drop_last() =~= commands@.take(
                it.index() as int,
            ));
            assert(commands@.take(it.index() + 1).last() == command);
        }
        match command {
            OutputCommand::OpenUrl { url, new_tab } => {
                actions.push(PlatformAction::OpenUrl { url, new_tab });
            },
            OutputCommand::CopyText(text) => {
                if !text.as_str().is_empty() {
                    actions.push(PlatformAction::SetClipboard(text));
                }
            },
            OutputCommand::CopyImage => {},
        }
        assert(actions@ =~= commands_actions(commands@.take(it.index() + 1)));
    }
    proof {
        assert(commands@.take(commands@.len() as int) =~= commands@);
    }
    let ghost before = actions@;
    match cursor_icon {
        CursorIcon::Hidden => {
            actions.push(PlatformAction::ShowMouse(false));
        },
        CursorIcon::Grab | CursorIcon::Grabbing => {
            actions.push(PlatformAction::ShowMouse(true));
        },
        _ => {
            actions.push(PlatformAction::ShowMouse(true));
            let icon = match to_mq_cursor_icon(cursor_icon) {
                Some(icon) => icon,
                None => crate::backend::CursorIcon::Default,
            };
            actions.push(PlatformAction::SetMouseCursor(icon));
        },
    }
    assert(actions@ =~= before + cursor_actions(cursor_icon));
    actions
}

/// What the backend reports at the start of a frame.
#[derive(Clone, Copy, Debug, PartialEq, Eq, Structural, Hash)]
pub struct FrameInfo {
    /// The size of the screen in logical points.
    pub screen_size_in_points: Vec2,
    /// The backend's clock.
    pub time: Seconds,
    /// The backend's own scale between points and pixels.
    pub native_dpi_scale: Scalar,
}

/// What a run of the GUI leaves for the caller to do.
#[derive(Clone, Debug, PartialEq, Eq)]
pub struct RunReport {
    /// The shapes of the frame before were never drawn: `draw` was not called after `run`.
    pub undrawn: bool,
    pub actions: Vec<PlatformAction>,
}

/// The bridge between the backend and the GUI: it gathers the backend's events into the
/// GUI's input, keeps the GUI's shapes from `run` to `draw`, and owns the renderer.
///
/// `S` is the GUI's list of shapes.
pub struct EguiMq<S> {
    target: Target,
    /// The scale between points and pixels as the backend reports it.
    native_dpi_scale: Scalar,
    /// The scale that the GUI used for its last frame, which differs from the backend's
    /// where the user has zoomed.
    pixels_per_point: Scalar,
    egui_input: RawInput,
    painter: Painter,
    shapes: Option<S>,
    textures_delta: TexturesDelta,
}

/// The bridge's state as contracts see it.
pub struct EguiMqView<S> {
    pub target: Target,
    pub native_dpi_scale: Scalar,
    pub pixels_per_point: Scalar,
    /// The input gathered for the next frame.
    pub input: RawInputView,
    /// The slot table of the renderer's texture cache.
    pub slots: Slots,
    /// The room of the renderer's two buffers.
    pub capacities: Capacities,
    /// The shapes that wait to be drawn.
    pub shapes: Option<S>,
    /// The texture changes that wait to be applied.
    pub set: Seq<(TextureId, ImageDelta)>,
    /// The textures that wait to be freed.
    pub free: Seq<TextureId>,
}

impl<S> View for EguiMq<S> {
    type V = EguiMqView<S>;

    closed spec fn view(&self) -> EguiMqView<S> {
        EguiMqView {
            target: self.target,
            native_dpi_scale: self.native_dpi_scale,
            pixels_per_point: self.pixels_per_point,
            input: self.egui_input@,
            slots: self.painter.slots(),
            capacities: self.painter.capacities(),
            shapes: self.shapes,
            set: self.textures_delta.set@,
            free: self.textures_delta.free@,
        }
    }
}

/// How much faster the wheel is taken to turn than the backend reports: a native backend
/// reports smaller steps than one in a web page.
pub open spec fn wheel_speed(target: Target) -> u32 {
    match target {
        Target::Web => 1,
        _ => 8,
    }
}

/// The event for a turn of the wheel: a zoom by the vertical turn where the control or the
/// command key is down, else a scroll.
pub open spec fn wheel_event(
    modifiers: Modifiers,
    target: Target,
    dx: Scalar,
    dy: Scalar,
) -> EventView {
    if modifiers.ctrl || modifiers.command {
        EventView::Zoom { turn: dy, speed: wheel_speed(target) }
    } else {
        EventView::Scroll { delta: Vec2 { x: dx, y: dy }, speed: wheel_speed(target), modifiers }
    }
}

/// Whether a key going down asks for a paste: the command key with V.
pub open spec fn is_paste(keycode: KeyCode, keymods: KeyMods, target: Target) -> bool {
    modifiers_for(keymods, target).command && keycode == KeyCode::V
}

/// The events of a key going down. With the command key, X cuts and C copies, and V
/// pastes what the clipboard holds, if it holds any text. Any other key is reported if
/// the GUI has a name for it.
pub open spec fn key_down_events(
    keycode: KeyCode,
    keymods: KeyMods,
    target: Target,
    clipboard: Option<String>,
) -> Seq<EventView> {
    let modifiers = modifiers_for(keymods, target);
    if modifiers.command && keycode == KeyCode::X {
        seq![EventView::Cut]
    } else if modifiers.command && keycode == KeyCode::C {
        seq![EventView::Copy]
    } else if modifiers.command && keycode == KeyCode::V {
        match clipboard {
            Some(text) => if text@.len() > 0 {
                seq![EventView::Text(text@)]
            } else {
                seq![]
            },
            None => seq![],
        }
    } else {
        match key_for(keycode) {
            Some(key) => seq![EventView::Key { key, pressed: true, repeat: false, modifiers }],
            None => seq![],
        }
    }
}

/// The events of a key going up: the key is reported if the GUI has a name for it.
pub open spec fn key_up_events(keycode: KeyCode, keymods: KeyMods, target: Target) -> Seq<
    EventView,
> {
    match key_for(keycode) {
        Some(key) => seq![
            EventView::Key {
                key,
                pressed: false,
                repeat: false,
                modifiers: modifiers_for(keymods, target),
            },
        ],
        None => seq![],
    }
}

/// The events of a typed character: text, unless the character is not printable or the
/// control or the Mac's command key is down.
pub open spec fn char_events(modifiers: Modifiers, chr: char) -> Seq<EventView> {
    if printable(chr) && !modifiers.ctrl && !modifiers.mac_cmd {
        seq![EventView::Text(seq![chr])]
    } else {
        seq![]
    }
}

/// A control character or one from a private-use area never becomes text, whatever the
/// modifier keys.
pub proof fn lemma_unprintable_is_no_text(modifiers: Modifiers, chr: char)
    requires
        crate::input::is_ascii_control(chr) || crate::input::in_private_use_area(chr),
    ensures
        char_events(modifiers, chr) == Seq::<EventView>::empty(),
{
}

/// A printable character becomes text of that one character unless the control key or the
/// Mac's command key is down, and then it becomes nothing.
pub proof fn lemma_printable_is_text(modifiers: Modifiers, chr: char)
    requires
        printable(chr),
    ensures
        char_events(modifiers, chr) == if modifiers.ctrl || modifiers.mac_cmd {
            Seq::<EventView>::empty()
        } else {
            seq![EventView::Text(seq![chr])]
        },
{
}

impl<S> EguiMqView<S> {
    /// The state with more events gathered.
    pub open spec fn with_events(self, events: Seq<EventView>) -> EguiMqView<S> {
        EguiMqView {
            input: RawInputView { events: self.input.events + events, ..self.input },
            ..self
        }
    }

    /// The state with the modifier keys as the backend last reported them.
    pub open spec fn with_modifiers(self, modifiers: Modifiers) -> EguiMqView<S> {
        EguiMqView { input: RawInputView { modifiers, ..self.input }, ..self }
    }

    /// Whether the backend's scale differs from the one last seen.
    pub open spec fn dpi_changed(self, frame: FrameInfo) -> bool {
        !same_number(self.native_dpi_scale.bits, frame.native_dpi_scale.bits)
    }

    /// The input that the GUI gets for a frame: what was gathered, with the screen's size
    /// and the clock as the backend reports them now, and its scale where that changed.
    pub open spec fn frame_input(self, frame: FrameInfo) -> RawInputView {
        RawInputView {
            screen_size: Some(frame.screen_size_in_points),
            time: Some(frame.time),
            native_pixels_per_point: if self.dpi_changed(frame) {
                Some(frame.native_dpi_scale)
            } else {
                self.input.native_pixels_per_point
            },
            ..self.input
        }
    }

    /// The state after a frame's input was taken.
    pub open spec fn after_begin(self, frame: FrameInfo) -> EguiMqView<S> {
        EguiMqView {
            native_dpi_scale: if self.dpi_changed(frame) {
                frame.native_dpi_scale
            } else {
                self.native_dpi_scale
            },
            input: self.frame_input(frame).drained(),
            ..self
        }
    }

    /// The state after the GUI's output for a frame was taken in: its shapes wait to be
    /// drawn, and its texture changes are added to those that wait.
    pub open spec fn after_end(self, output: FullOutput<S>) -> EguiMqView<S> {
        EguiMqView {
            pixels_per_point: output.pixels_per_point,
            shapes: Some(output.shapes),
            set: self.set + output.textures_delta.set@,
            free: self.free + output.textures_delta.free@,
            ..self
        }
    }

    /// The state after the primitives were drawn: the texture changes that waited were
    /// applied and wait no more.
    pub open spec fn after_paint<C>(self, primitives: Seq<ClippedPrimitiveView<C>>) -> EguiMqView<
        S,
    > {
        EguiMqView {
            slots: slots_after_free(slots_after_set(self.slots, self.set), self.free),
            capacities: capacities_after_primitives(self.capacities, primitives),
            set: Seq::empty(),
            free: Seq::empty(),
            ..self
        }
    }

    /// The backend commands that draw the primitives, with the texture changes that wait.
    pub open spec fn frame_commands<C>(
        self,
        commands: FrameCommands<C>,
        primitives: Seq<ClippedPrimitiveView<C>>,
        screen: ScreenInfo,
    ) -> bool {
        &&& texture_command_views(commands.set@) == set_commands(self.slots, self.set)
        &&& draw_command_views(commands.draw@) == paint_commands(
            self.capacities,
            slots_after_set(self.slots, self.set),
            primitives,
            screen,
        )
        &&& texture_command_views(commands.free@) == free_commands(
            slots_after_set(self.slots, self.set),
            self.free,
        )
    }
}

/// `char::to_string`: the text that consists of the one character.
#[verifier::external_body]
fn char_to_string(chr: char) -> (text: String)
    ensures
        text@ == seq![chr],
{
    chr.to_string()
}

impl<S> EguiMq<S> {
    /// The renderer's texture cache holds no name twice.
    pub open spec fn well_formed(&self) -> bool {
        distinct_ids(self@.slots)
    }

    /// A bridge for a backend whose scale between points and pixels is `native_dpi_scale`:
    /// nothing is gathered, nothing waits, and the renderer is new.
    pub fn new(target: Target, native_dpi_scale: Scalar) -> (bridge: EguiMq<S>)
        ensures
            bridge.well_formed(),
            bridge@ == (EguiMqView::<S> {
                target,
                native_dpi_scale,
                pixels_per_point: native_dpi_scale,
                input: RawInputView {
                    screen_size: None,
                    native_pixels_per_point: None,
                    time: None,
                    modifiers: Modifiers::none(),
                    events: Seq::empty(),
                },
                slots: Seq::empty(),
                capacities: Capacities {
                    vertices: crate::painter::INITIAL_CAPACITY,
                    indices: crate::painter::INITIAL_CAPACITY,
                },
                shapes: None,
                set: Seq::empty(),
                free: Seq::empty(),
            }),
    {
        EguiMq {
            target,
            native_dpi_scale,
            pixels_per_point: native_dpi_scale,
            egui_input: RawInput::new(),
            painter: Painter::new(),
            shapes: None,
            textures_delta: TexturesDelta { set: Vec::new(), free: Vec::new() },
        }
    }

    /// The scale between points and pixels that the GUI used for its last frame.
    pub fn pixels_per_point(&self) -> (scale: Scalar)
        ensures
            scale == self@.pixels_per_point,
    {
        self.pixels_per_point
    }

    /// The renderer.
    pub fn painter(&self) -> (painter: &Painter)
        ensures
            painter.slots() == self@.slots,
            painter.capacities() == self@.capacities,
    {
        &self.painter
    }

    /// The input gathered so far for the next frame.
    pub fn input(&self) -> (input: &RawInput)
        ensures
            input@ == self@.input,
    {
        &self.egui_input
    }

    /// Whether shapes wait to be drawn.
    pub fn has_pending_shapes(&self) -> (pending: bool)
        ensures
            pending == self@.shapes.is_some(),
    {
        self.shapes.is_some()
    }

    /// The pointer moved to `pos`, in logical points.
    pub fn mouse_motion_event(&mut self, pos: Pos2)
        ensures
            final(self)@ == old(self)@.with_events(seq![EventView::PointerMoved(pos)]),
    {
        self.egui_input.push(Event::PointerMoved(pos));
        assert(self@.input.events =~= old(self)@.input.events + seq![EventView::PointerMoved(pos)]);
    }

    /// The wheel turned by `dx` and `dy`, as the backend reports it.
    pub fn mouse_wheel_event(&mut self, dx: Scalar, dy: Scalar)
        ensures
            final(self)@ == old(self)@.with_events(
                seq![wheel_event(old(self)@.input.modifiers, old(self)@.target, dx, dy)],
            ),
    {
        let speed: u32 = match self.target {
            Target::Web => 1,
            _ => 8,
        };
        let modifiers = self.egui_input.modifiers;
        let event = if modifiers.ctrl || modifiers.command {
            Event::Zoom { turn: dy, speed }
        } else {
            Event::Scroll { delta: Vec2 { x: dx, y: dy }, speed, modifiers }
        };
        self.egui_input.push(event);
        assert(self@.input.events =~= old(self)@.input.events + seq![event@]);
    }

    /// A button of the mouse went down at `pos`, in logical points.
    pub fn mouse_button_down_event(&mut self, mb: MouseButton, pos: Pos2)
        ensures
            final(self)@ == old(self)@.with_events(
                seq![
                    EventView::PointerButton {
                        pos,
                        button: button_for(mb),
                        pressed: true,
                        modifiers: old(self)@.input.modifiers,
                    },
                ],
            ),
    {
        let event = Event::PointerButton {
            pos,
            button: to_egui_button(mb),
            pressed: true,
            modifiers: self.egui_input.modifiers,
        };
        self.egui_input.push(event);
        assert(self@.input.events =~= old(self)@.input.events + seq![event@]);
    }

    /// A button of the mouse went up at `pos`, in logical points.
    pub fn mouse_button_up_event(&mut self, mb: MouseButton, pos: Pos2)
        ensures
            final(self)@ == old(self)@.with_events(
                seq![
                    EventView::PointerButton {
                        pos,
                        button: button_for(mb),
                        pressed: false,
                        modifiers: old(self)@.input.modifiers,
                    },
                ],
            ),
    {
        let event = Event::PointerButton {
            pos,
            button: to_egui_button(mb),
            pressed: false,
            modifiers: self.egui_input.modifiers,
        };
        self.egui_input.push(event);
        assert(self@.input.events =~= old(self)@.input.events + seq![event@]);
    }

    /// A character was typed.
    pub fn char_event(&mut self, chr: char)
        ensures
            final(self)@ == old(self)@.with_events(char_events(old(self)@.input.modifiers, chr)),
    {
        if is_printable_char(chr) && !self.egui_input.modifiers.ctrl
            && !self.egui_input.modifiers.mac_cmd {
            self.egui_input.push(Event::Text(char_to_string(chr)));
        }
        assert(self@.input.events =~= old(self)@.input.events + char_events(
            old(self)@.input.modifiers,
            chr,
        ));
    }

    /// A key went down, and `clipboard` is what the clipboard holds, which is read only
    /// for a paste.
    pub fn key_down_with_clipboard(
        &mut self,
        keycode: KeyCode,
        keymods: KeyMods,
        clipboard: Option<String>,
    )
        ensures
            final(self)@ == old(self)@.with_modifiers(
                modifiers_for(keymods, old(self)@.target),
            ).with_events(key_down_events(keycode, keymods, old(self)@.target, clipboard)),
    {
        let modifiers = egui_modifiers_from_mq_modifiers(keymods, self.target);
        self.egui_input.modifiers = modifiers;
        if modifiers.command && keycode == KeyCode::X {
            self.egui_input.push(Event::Cut);
        } else if modifiers.command && keycode == KeyCode::C {
            self.egui_input.push(Event::Copy);
        } else if modifiers.command && keycode == KeyCode::V {
            if let Some(text) = clipboard {
                if !text.as_str().is_empty() {
                    self.egui_input.push(Event::Text(text));
                }
            }
        } else if let Some(key) = egui_key_from_mq_key(keycode) {
            self.egui_input.push(Event::Key { key, pressed: true, repeat: false, modifiers });
        }
        assert(self@.input.events =~= old(self)@.input.events + key_down_events(
            keycode,
            keymods,
            old(self)@.target,
            clipboard,
        ));
    }

    /// Tells whether a key going down asks for a paste.
    pub fn wants_paste(&self, keycode: KeyCode, keymods: KeyMods) -> (paste: bool)
        ensures
            paste == is_paste(keycode, keymods, self@.target),
    {
        let modifiers = egui_modifiers_from_mq_modifiers(keymods, self.target);
        modifiers.command && keycode == KeyCode::V
    }

    /// A key went down. The clipboard is read, through `get_clipboard`, only for a paste.
    pub fn key_down_event<F: FnOnce() -> Option<String>>(
        &mut self,
        keycode: KeyCode,
        keymods: KeyMods,
        get_clipboard: F,
    )
        requires
            is_paste(keycode, keymods, old(self)@.target) ==> get_clipboard.requires(()),
        ensures
            exists|clipboard: Option<String>|
                {
                    &&& is_paste(keycode, keymods, old(self)@.target) ==> get_clipboard.ensures(
                        (),
                        clipboard,
                    )
                    &&& final(self)@ == old(self)@.with_modifiers(
                        modifiers_for(keymods, old(self)@.target),
                    ).with_events(
                        #[trigger] key_down_events(keycode, keymods, old(self)@.target, clipboard),
                    )
                },
    {
        let clipboard = if self.wants_paste(keycode, keymods) {
            get_clipboard()
        } else {
            None
        };
        self.key_down_with_clipboard(keycode, keymods, clipboard);
    }

    /// A key went up.
    pub fn key_up_event(&mut self, keycode: KeyCode, keymods: KeyMods)
        ensures
            final(self)@ == old(self)@.with_modifiers(
                modifiers_for(keymods, old(self)@.target),
            ).with_events(key_up_events(keycode, keymods, old(self)@.target)),
    {
        let modifiers = egui_modifiers_from_mq_modifiers(keymods, self.target);
        self.egui_input.modifiers = modifiers;
        if let Some(key) = egui_key_from_mq_key(keycode) {
            self.egui_input.push(Event::Key { key, pressed: false, repeat: false, modifiers });
        }
        assert(self@.input.events =~= old(self)@.input.events + key_up_events(
            keycode,
            keymods,
            old(self)@.target,
        ));
    }
}

impl<S> EguiMq<S> {
    /// Starts a frame: the screen's size and the clock are noted, a change of the backend's
    /// scale is passed on to the GUI, and the input gathered so far is taken for the GUI.
    pub fn begin_frame(&mut self, frame: &FrameInfo) -> (input: RawInput)
        requires
            old(self).well_formed(),
        ensures
            final(self).well_formed(),
            input@ == old(self)@.frame_input(*frame),
            final(self)@ == old(self)@.after_begin(*frame),
    {
        crate::input::on_frame_start(&mut self.egui_input, frame.screen_size_in_points, frame.time);
        if !self.native_dpi_scale.same_number(frame.native_dpi_scale) {
            self.native_dpi_scale = frame.native_dpi_scale;
            self.egui_input.native_pixels_per_point = Some(frame.native_dpi_scale);
        }
        self.egui_input.take()
    }

    /// Ends a frame: the GUI's shapes are kept for `draw`, its texture changes are added to
    /// those that wait, and what it asks of the platform is turned into actions.
    pub fn end_frame(&mut self, output: FullOutput<S>) -> (report: RunReport)
        requires
            old(self).well_formed(),
        ensures
            final(self).well_formed(),
            final(self)@ == old(self)@.after_end(output),
            report.undrawn == old(self)@.shapes.is_some(),
            report.actions@ == platform_actions(output.platform_output),
    {
        let FullOutput { platform_output, textures_delta, shapes, pixels_per_point } = output;
        let undrawn = self.shapes.is_some();
        self.shapes = Some(shapes);
        self.pixels_per_point = pixels_per_point;
        let TexturesDelta { mut set, mut free } = textures_delta;
        self.textures_delta.set.append(&mut set);
        self.textures_delta.free.append(&mut free);
        let actions = apply_platform_output(platform_output);
        RunReport { undrawn, actions }
    }

    /// Runs the GUI for one frame: `run_ui` is the GUI, which gets the frame's input and
    /// gives its output.
    pub fn run<F: FnOnce(RawInput) -> FullOutput<S>>(
        &mut self,
        frame: &FrameInfo,
        run_ui: F,
    ) -> (report: RunReport)
        requires
            old(self).well_formed(),
            forall|input: RawInput|
                input@ == old(self)@.frame_input(*frame) ==> #[trigger] run_ui.requires((input,)),
        ensures
            final(self).well_formed(),
            report.undrawn == old(self)@.shapes.is_some(),
            exists|input: RawInput, output: FullOutput<S>|
                {
                    &&& input@ == old(self)@.frame_input(*frame)
                    &&& #[trigger] run_ui.ensures((input,), output)
                    &&& final(self)@ == old(self)@.after_begin(*frame).after_end(output)
                    &&& report.actions@ == platform_actions(output.platform_output)
                },
    {
        let input = self.begin_frame(frame);
        let ghost given = input;
        let output = run_ui(input);
        let ghost got = output;
        let report = self.end_frame(output);
        assert(run_ui.ensures((given,), got));
        report
    }

    /// Tells whether every image among the texture changes that wait holds as many texels
    /// as its size says.
    pub fn textures_well_formed(&self) -> (ok: bool)
        ensures
            ok == all_well_formed(self@.set),
    {
        crate::painter::changes_well_formed(&self.textures_delta.set)
    }

    /// Draws primitives: the texture changes that wait are applied, the primitives are
    /// drawn, the textures that wait to be freed are freed, and nothing waits any more.
    pub fn paint_frame<C>(
        &mut self,
        primitives: Vec<ClippedPrimitive<C>>,
        screen: &ScreenInfo,
    ) -> (commands: FrameCommands<C>)
        requires
            old(self).well_formed(),
            all_well_formed(old(self)@.set),
            all_splittable(primitive_views(primitives@)),
        ensures
            final(self).well_formed(),
            final(self)@ == old(self)@.after_paint(primitive_views(primitives@)),
            old(self)@.frame_commands(commands, primitive_views(primitives@), *screen),
    {
        let commands = self.painter.paint_and_update_textures(
            primitives,
            &self.textures_delta,
            screen,
        );
        self.textures_delta.set.clear();
        self.textures_delta.free.clear();
        commands
    }

    /// Draws the shapes that wait: `tessellate` is the GUI's tessellator, which gets the
    /// shapes and the scale that the GUI used for them. Where no shapes wait, nothing
    /// happens and `None` is returned: `run` was not called before.
    pub fn draw<C, F: FnOnce(S, Scalar) -> Vec<ClippedPrimitive<C>>>(
        &mut self,
        screen: &ScreenInfo,
        tessellate: F,
    ) -> (commands: Option<FrameCommands<C>>)
        requires
            old(self).well_formed(),
            old(self)@.shapes.is_some() ==> {
                &&& all_well_formed(old(self)@.set)
                &&& tessellate.requires((old(self)@.shapes.unwrap(), old(self)@.pixels_per_point))
                &&& forall|primitives: Vec<ClippedPrimitive<C>>| #[trigger]
                    tessellate.ensures(
                        (old(self)@.shapes.unwrap(), old(self)@.pixels_per_point),
                        primitives,
                    ) ==> all_splittable(primitive_views(primitives@))
            },
        ensures
            final(self).well_formed(),
            commands.is_some() == old(self)@.shapes.is_some(),
            old(self)@.shapes.is_none() ==> final(self)@ == old(self)@,
            old(self)@.shapes.is_some() ==> exists|primitives: Vec<ClippedPrimitive<C>>|
                {
                    let waiting = EguiMqView { shapes: None, ..old(self)@ };
                    &&& #[trigger] tessellate.ensures(
                        (old(self)@.shapes.unwrap(), old(self)@.pixels_per_point),
                        primitives,
                    )
                    &&& final(self)@ == waiting.after_paint(primitive_views(primitives@))
                    &&& waiting.frame_commands(
                        commands.unwrap(),
                        primitive_views(primitives@),
                        *screen,
                    )
                },
    {
        match self.shapes.take() {
            Some(shapes) => {
                let primitives = tessellate(shapes, self.pixels_per_point);
                let ghost made = primitives;
                let commands = self.paint_frame(primitives, screen);
                assert(tessellate.ensures(
                    (old(self)@.shapes.unwrap(), old(self)@.pixels_per_point),
                    made,
                ));
                Some(commands)
            },
            None => None,
        }
    }
}

} // verus!
