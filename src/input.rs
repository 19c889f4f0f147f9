//! Input handling for the terminal view: mouse presses, moves and releases
//! and keyboard events become backend commands, through the bindings.

use vstd::prelude::*;
use vstd::utf8::encode_utf8;
use vstd::slice::slice_to_vec;
use crate::backend::{BackendCommand, LinkAction, RenderableContent};
use crate::bindings::{action_for, BindingAction, BindingActionView, BindingsLayout, Button, InputKind, InputView, NamedKey};
use crate::grid::{
    offset_from, pixel_point, point_le, selection_point, GridPoint, Position, SelectionKind,
};
use crate::modes::{bits_contain, command_modifier, Modifiers, TermMode, CTRL, LOGO, SGR_MOUSE};
use crate::mouse::MouseButton;
use crate::terminal::Command;

verus! {

/// The view's input state: focus, whether the left button is held, the
/// pressed modifiers, the grid point under the mouse, and the platform
/// command key.
#[derive(Clone, Copy, Debug, PartialEq, Eq, Structural)]
pub struct TermViewState {
    pub is_focused: bool,
    pub is_dragged: bool,
    pub keyboard_modifiers: Modifiers,
    pub mouse_position_on_grid: GridPoint,
    pub command_key: Modifiers,
}

impl TermViewState {
    /// A focused view, no button held, no modifier pressed, the mouse at the
    /// top-left cell, with this platform's command key.
    pub fn new() -> (r: TermViewState)
        ensures
            r.is_focused,
            !r.is_dragged,
            r.keyboard_modifiers.bits == 0,
            r.mouse_position_on_grid == (GridPoint { line: 0, column: 0 }),
            r.command_key.bits == CTRL || r.command_key.bits == LOGO,
    {
        TermViewState::with_command_key(command_modifier())
    }

    /// As [`TermViewState::new`], for a platform whose command key is
    /// `command_key`.
    pub fn with_command_key(command_key: Modifiers) -> (r: TermViewState)
        ensures
            r.is_focused,
            !r.is_dragged,
            r.keyboard_modifiers.bits == 0,
            r.mouse_position_on_grid == (GridPoint { line: 0, column: 0 }),
            r.command_key == command_key,
    {
        TermViewState {
            is_focused: true,
            is_dragged: false,
            keyboard_modifiers: Modifiers::empty(),
            mouse_position_on_grid: GridPoint { line: 0, column: 0 },
            command_key,
        }
    }
}

impl Default for TermViewState {
    fn default() -> (r: TermViewState)
        ensures
            r.is_focused,
            !r.is_dragged,
            r.keyboard_modifiers.bits == 0,
            r.mouse_position_on_grid == (GridPoint { line: 0, column: 0 }),
            r.command_key.bits == CTRL || r.command_key.bits == LOGO,
    {
        TermViewState::new()
    }
}

/// Mouse events go to the program (instead of selecting text) when it asked
/// for SGR reports and no modifier is pressed.
pub open spec fn reports_mouse(mode: u32, modifiers: u32) -> bool {
    bits_contain(mode, SGR_MOUSE) && modifiers == 0
}

pub open spec fn backend(c: BackendCommand) -> Command {
    Command::ProcessBackendCommand(c)
}

/// A left press: a report to the program, or the start of a selection at
/// the pressed position.
pub open spec fn left_press_command(
    s: TermViewState,
    mode: u32,
    position: Position,
    kind: SelectionKind,
) -> Command {
    if reports_mouse(mode, s.keyboard_modifiers.bits) {
        backend(
            BackendCommand::MouseReport(
                MouseButton::LeftButton,
                s.keyboard_modifiers,
                s.mouse_position_on_grid,
                true,
            ),
        )
    } else {
        backend(BackendCommand::SelectStart(kind, position))
    }
}

/// A move: while dragging, a motion report or a selection update; with
/// exactly the command key pressed, a hover at the new point.
pub open spec fn move_commands(s: TermViewState, mode: u32, position: Position, point: GridPoint) -> Seq<
    Command,
> {
    (if s.is_dragged {
        seq![
            if reports_mouse(mode, s.keyboard_modifiers.bits) {
                backend(
                    BackendCommand::MouseReport(
                        MouseButton::LeftMove,
                        s.keyboard_modifiers,
                        point,
                        true,
                    ),
                )
            } else {
                backend(BackendCommand::SelectUpdate(position))
            },
        ]
    } else {
        seq![]
    }) + (if s.keyboard_modifiers == s.command_key {
        seq![backend(BackendCommand::ProcessLink(LinkAction::Hover, point))]
    } else {
        seq![]
    })
}

/// A left release: a release report in SGR mode, and the opening of the
/// link under the mouse when the bindings say so.
pub open spec fn release_commands(s: TermViewState, mode: u32, layout: Seq<crate::bindings::EntryView>) -> Seq<
    Command,
> {
    (if bits_contain(mode, SGR_MOUSE) {
        seq![
            backend(
                BackendCommand::MouseReport(
                    MouseButton::LeftButton,
                    s.keyboard_modifiers,
                    s.mouse_position_on_grid,
                    false,
                ),
            ),
        ]
    } else {
        seq![]
    }) + (if action_for(layout, InputView::Mouse(Button::Left), s.keyboard_modifiers.bits, mode)
        == BindingActionView::LinkOpen {
        seq![backend(BackendCommand::ProcessLink(LinkAction::Open, s.mouse_position_on_grid))]
    } else {
        seq![]
    })
}

/// Handles a left-button press at `cursor_position` in a view whose
/// top-left corner is at `layout_position`; `selection_kind` follows from
/// the click count.
pub fn handle_left_button_pressed(
    state: &mut TermViewState,
    terminal_mode: &TermMode,
    cursor_position: Position,
    layout_position: Position,
    selection_kind: SelectionKind,
    commands: &mut Vec<Command>,
)
    ensures
        *final(state) == (TermViewState { is_dragged: true, ..*old(state) }),
        final(commands)@ == old(commands)@.push(
            left_press_command(
                *old(state),
                terminal_mode.bits,
                offset_from(cursor_position, layout_position),
                selection_kind,
            ),
        ),
{
    let cmd = if terminal_mode.contains(TermMode::from_bits(SGR_MOUSE))
        && state.keyboard_modifiers.is_empty() {
        Command::ProcessBackendCommand(
            BackendCommand::MouseReport(
                MouseButton::LeftButton,
                state.keyboard_modifiers,
                state.mouse_position_on_grid,
                true,
            ),
        )
    } else {
        Command::ProcessBackendCommand(
            BackendCommand::SelectStart(selection_kind, cursor_position.offset_from(layout_position)),
        )
    };
    commands.push(cmd);
    state.is_dragged = true;
}

/// Handles a mouse move to `position`: records the grid point under it,
/// then issues the commands of [`move_commands`].
pub fn handle_cursor_moved(
    state: &mut TermViewState,
    terminal_content: &RenderableContent,
    position: Position,
    layout_position: Position,
    commands: &mut Vec<Command>,
)
    requires
        terminal_content.terminal_size.wf(),
        terminal_content.display_offset <= i32::MAX,
    ensures
        ({
            let rel = offset_from(position, layout_position);
            let point = pixel_point(
                rel.x as int,
                rel.y as int,
                terminal_content.terminal_size,
                terminal_content.display_offset as int,
            );
            &&& *final(state) == (TermViewState { mouse_position_on_grid: point, ..*old(state) })
            &&& final(commands)@ == old(commands)@ + move_commands(
                *old(state),
                terminal_content.terminal_mode.bits,
                rel,
                point,
            )
        }),
{
    let rel = position.offset_from(layout_position);
    let point = selection_point(
        rel.x,
        rel.y,
        &terminal_content.terminal_size,
        terminal_content.display_offset,
    );
    state.mouse_position_on_grid = point;
    let ghost start = commands@;
    if state.is_dragged {
        let mode = terminal_content.terminal_mode;
        let cmd = if mode.contains(TermMode::from_bits(SGR_MOUSE))
            && state.keyboard_modifiers.is_empty() {
            Command::ProcessBackendCommand(
                BackendCommand::MouseReport(
                    MouseButton::LeftMove,
                    state.keyboard_modifiers,
                    point,
                    true,
                ),
            )
        } else {
            Command::ProcessBackendCommand(BackendCommand::SelectUpdate(rel))
        };
        commands.push(cmd);
    }
    if state.keyboard_modifiers == state.command_key {
        commands.push(
            Command::ProcessBackendCommand(BackendCommand::ProcessLink(LinkAction::Hover, point)),
        );
    }
    assert(commands@ =~= start + move_commands(*old(state), terminal_content.terminal_mode.bits, rel, point));
}

/// Handles a left-button release: the drag ends, then the commands of
/// [`release_commands`].
pub fn handle_button_released(
    state: &mut TermViewState,
    terminal_mode: &TermMode,
    bindings: &BindingsLayout,
    commands: &mut Vec<Command>,
)
    ensures
        *final(state) == (TermViewState { is_dragged: false, ..*old(state) }),
        final(commands)@ == old(commands)@ + release_commands(
            *old(state),
            terminal_mode.bits,
            bindings@,
        ),
{
    state.is_dragged = false;
    let ghost start = commands@;
    if terminal_mode.contains(TermMode::from_bits(SGR_MOUSE)) {
        commands.push(
            Command::ProcessBackendCommand(
                BackendCommand::MouseReport(
                    MouseButton::LeftButton,
                    state.keyboard_modifiers,
                    state.mouse_position_on_grid,
                    false,
                ),
            ),
        );
    }
    let action = bindings.get_action(
        InputKind::Mouse(Button::Left),
        state.keyboard_modifiers,
        *terminal_mode,
    );
    if action.is_link_open() {
        commands.push(
            Command::ProcessBackendCommand(
                BackendCommand::ProcessLink(LinkAction::Open, state.mouse_position_on_grid),
            ),
        );
    }
    assert(commands@ =~= start + release_commands(*old(state), terminal_mode.bits, bindings@));
}

/// The mouse cursor shape over the view.
#[derive(Clone, Copy, Debug, PartialEq, Eq, Structural, Hash)]
pub enum Interaction {
    Idle,
    Text,
    Pointer,
}

/// Whether the grid point under the mouse lies in the hovered link.
pub fn is_cursor_hovered_hyperlink(state: &TermViewState, terminal_content: &RenderableContent) -> (r:
    bool)
    ensures
        r == match terminal_content.hovered_hyperlink {
            Some(link) => point_le(link.start, state.mouse_position_on_grid) && point_le(
                state.mouse_position_on_grid,
                link.end,
            ),
            None => false,
        },
{
    match terminal_content.hovered_hyperlink {
        Some(link) => link.contains(state.mouse_position_on_grid),
        None => false,
    }
}

/// The cursor shape: a pointer over the hovered link; otherwise a text
/// cursor inside the view unless the program takes SGR mouse reports; else
/// the default. Without a backend there is no mode and no link.
pub fn mouse_interaction(
    state: &TermViewState,
    terminal_content: Option<&RenderableContent>,
    cursor_in_layout: bool,
) -> (r: Interaction)
    ensures
        r == (match terminal_content {
            Some(c) => if match c.hovered_hyperlink {
                Some(link) => point_le(link.start, state.mouse_position_on_grid) && point_le(
                    state.mouse_position_on_grid,
                    link.end,
                ),
                None => false,
            } {
                Interaction::Pointer
            } else if cursor_in_layout && !bits_contain(c.terminal_mode.bits, SGR_MOUSE) {
                Interaction::Text
            } else {
                Interaction::Idle
            },
            None => if cursor_in_layout {
                Interaction::Text
            } else {
                Interaction::Idle
            },
        }),
{
    let mut interaction = Interaction::Idle;
    assert(0u32 & 0x20u32 != 0x20u32) by (bit_vector);
    let mode = match terminal_content {
        Some(c) => c.terminal_mode,
        None => TermMode::empty(),
    };
    if cursor_in_layout && !mode.contains(TermMode::from_bits(SGR_MOUSE)) {
        interaction = Interaction::Text;
    }
    match terminal_content {
        Some(c) => {
            if is_cursor_hovered_hyperlink(state, c) {
                interaction = Interaction::Pointer;
            }
        },
        None => {},
    }
    interaction
}

/// A keyboard event.
#[derive(Clone, Debug, PartialEq, Eq)]
pub enum KeyboardEvent {
    /// The pressed modifiers changed.
    ModifiersChanged(Modifiers),
    /// A character key was pressed; the text it produces.
    CharacterPressed(String),
    /// A named key was pressed, with these modifiers.
    NamedKeyPressed(NamedKey, Modifiers),
}

/// What a keyboard event asks for.
#[derive(Clone, Debug, PartialEq, Eq)]
pub enum KeyResponse {
    Nothing,
    /// This backend command.
    Send(BackendCommand),
    /// Write the clipboard's text to the child.
    Paste,
    /// Put the selected text on the clipboard.
    Copy,
}

/// The value of a [`KeyResponse`] as far as keyboard handling produces it.
pub enum ResponseView {
    Nothing,
    Write(Seq<u8>),
    Link(LinkAction, GridPoint),
    Paste,
    Copy,
    Other,
}

impl View for KeyResponse {
    type V = ResponseView;

    open spec fn view(&self) -> ResponseView {
        match self {
            KeyResponse::Nothing => ResponseView::Nothing,
            KeyResponse::Send(BackendCommand::Write(b)) => ResponseView::Write(b@),
            KeyResponse::Send(BackendCommand::ProcessLink(a, p)) => ResponseView::Link(*a, *p),
            KeyResponse::Send(_) => ResponseView::Other,
            KeyResponse::Paste => ResponseView::Paste,
            KeyResponse::Copy => ResponseView::Copy,
        }
    }
}

/// ASCII capitals in lower case; every other character as it is.
pub open spec fn ascii_lower(c: char) -> char {
    if 'A' <= c <= 'Z' {
        ((c as u8) + 32u8) as char
    } else {
        c
    }
}

/// Relies on `str::to_ascii_lowercase`: ASCII capitals become lower case,
/// all other characters are kept.
#[verifier::external_body]
fn ascii_lowercase(s: &str) -> (r: String)
    ensures
        r@ == s@.map_values(|c: char| ascii_lower(c)),
{
    s.to_ascii_lowercase()
}

/// Relies on `char::encode_utf8`: the UTF-8 bytes of the character.
#[verifier::external_body]
fn char_utf8(c: char) -> (r: Vec<u8>)
    ensures
        r@ == encode_utf8(seq![c]),
{
    let mut buf = [0u8; 4];
    c.encode_utf8(&mut buf).as_bytes().to_vec()
}

fn str_bytes(s: &str) -> (r: Vec<u8>)
    ensures
        r@ == encode_utf8(s@),
{
    slice_to_vec(s.as_bytes())
}

/// What a bound action asks for: a character or an escape sequence is
/// written to the child as UTF-8; copy and paste go through the clipboard.
pub open spec fn action_response(a: BindingActionView) -> ResponseView {
    match a {
        BindingActionView::Char(c) => ResponseView::Write(encode_utf8(seq![c])),
        BindingActionView::Esc(s) => ResponseView::Write(encode_utf8(s)),
        BindingActionView::Paste => ResponseView::Paste,
        BindingActionView::Copy => ResponseView::Copy,
        _ => ResponseView::Nothing,
    }
}

fn response_for(action: BindingAction) -> (r: KeyResponse)
    ensures
        r@ == action_response(action@),
{
    match action {
        BindingAction::Char(c) => KeyResponse::Send(BackendCommand::Write(char_utf8(c))),
        BindingAction::Esc(s) => KeyResponse::Send(BackendCommand::Write(str_bytes(s.as_str()))),
        BindingAction::Paste => KeyResponse::Paste,
        BindingAction::Copy => KeyResponse::Copy,
        _ => KeyResponse::Nothing,
    }
}

/// Handles a keyboard event. A modifier change is recorded and shows (with
/// exactly the command key) or hides the link under the mouse. A character
/// key is looked up (in lower case, with the recorded modifiers) and written
/// as it is when nothing is bound to it; a named key is looked up with the
/// event's modifiers.
pub fn handle_keyboard_event(
    state: &mut TermViewState,
    bindings: &BindingsLayout,
    terminal_mode: TermMode,
    event: KeyboardEvent,
) -> (r: KeyResponse)
    ensures
        match event {
            KeyboardEvent::ModifiersChanged(m) => {
                &&& *final(state) == (TermViewState { keyboard_modifiers: m, ..*old(state) })
                &&& r@ == ResponseView::Link(
                    if m == old(state).command_key {
                        LinkAction::Hover
                    } else {
                        LinkAction::Clear
                    },
                    old(state).mouse_position_on_grid,
                )
            },
            KeyboardEvent::CharacterPressed(c) => {
                let a = action_for(
                    bindings@,
                    InputView::Char(c@.map_values(|ch: char| ascii_lower(ch))),
                    old(state).keyboard_modifiers.bits,
                    terminal_mode.bits,
                );
                &&& *final(state) == *old(state)
                &&& r@ == if a == BindingActionView::Ignore {
                    ResponseView::Write(encode_utf8(c@))
                } else {
                    action_response(a)
                }
            },
            KeyboardEvent::NamedKeyPressed(k, m) => {
                &&& *final(state) == *old(state)
                &&& r@ == action_response(
                    action_for(bindings@, InputView::KeyCode(k), m.bits, terminal_mode.bits),
                )
            },
        },
{
    match event {
        KeyboardEvent::ModifiersChanged(m) => {
            state.keyboard_modifiers = m;
            let action = if m == state.command_key {
                LinkAction::Hover
            } else {
                LinkAction::Clear
            };
            KeyResponse::Send(BackendCommand::ProcessLink(action, state.mouse_position_on_grid))
        },
        KeyboardEvent::CharacterPressed(c) => {
            let action = bindings.get_action(
                InputKind::Char(ascii_lowercase(c.as_str())),
                state.keyboard_modifiers,
                terminal_mode,
            );
            if action.is_ignore() {
                KeyResponse::Send(BackendCommand::Write(str_bytes(c.as_str())))
            } else {
                response_for(action)
            }
        },
        KeyboardEvent::NamedKeyPressed(code, modifiers) => {
            let action = bindings.get_action(InputKind::KeyCode(code), modifiers, terminal_mode);
            response_for(action)
        },
    }
}

} // verus!
