//! The built-in binding table: xterm-compatible sequences for named keys
//! under each modifier combination, the C0 control characters, the
//! platform copy/paste keys and the link-open mouse binding.

use vstd::prelude::*;
use crate::bindings::{
    action_for, add_entries, entries_view, lemma_action_for_concat, lemma_add_entries_other_input,
    lemma_some_triggers_concat,
    some_triggers, triggers, BindingActionView, Binding, BindingAction, BindingView, Button, Entry,
    EntryView, InputKind, InputView, NamedKey,
};
use crate::modes::{
    bits_contain, bits_intersect, Modifiers, TermMode, ALT, ALT_SCREEN, APP_CURSOR, CTRL, LOGO, SHIFT,
};

verus! {

pub open spec fn key_row(
    key: NamedKey,
    modifiers: u32,
    mode_include: u32,
    mode_exclude: u32,
    action: BindingActionView,
) -> EntryView {
    (BindingView { target: InputView::KeyCode(key), modifiers, mode_include, mode_exclude }, action)
}

pub open spec fn char_row(
    text: Seq<char>,
    modifiers: u32,
    mode_include: u32,
    mode_exclude: u32,
    action: BindingActionView,
) -> EntryView {
    (BindingView { target: InputView::Char(text), modifiers, mode_include, mode_exclude }, action)
}

/// Keys without modifiers, in any mode.
pub open spec fn plain_key_rows() -> Seq<EntryView> {
    seq![
        key_row(NamedKey::Space, 0, 0, 0, BindingActionView::Char(' ')),
        key_row(NamedKey::Enter, 0, 0, 0, BindingActionView::Char('\x0d')),
        key_row(NamedKey::Backspace, 0, 0, 0, BindingActionView::Char('\x7f')),
        key_row(NamedKey::Escape, 0, 0, 0, BindingActionView::Char('\x1b')),
        key_row(NamedKey::Tab, 0, 0, 0, BindingActionView::Char('\x09')),
        key_row(NamedKey::Insert, 0, 0, 0, BindingActionView::Esc("\x1b[2~"@)),
        key_row(NamedKey::Delete, 0, 0, 0, BindingActionView::Esc("\x1b[3~"@)),
        key_row(NamedKey::PageUp, 0, 0, 0, BindingActionView::Esc("\x1b[5~"@)),
        key_row(NamedKey::PageDown, 0, 0, 0, BindingActionView::Esc("\x1b[6~"@)),
        key_row(NamedKey::F1, 0, 0, 0, BindingActionView::Esc("\x1bOP"@)),
        key_row(NamedKey::F2, 0, 0, 0, BindingActionView::Esc("\x1bOQ"@)),
        key_row(NamedKey::F3, 0, 0, 0, BindingActionView::Esc("\x1bOR"@)),
        key_row(NamedKey::F4, 0, 0, 0, BindingActionView::Esc("\x1bOS"@)),
        key_row(NamedKey::F5, 0, 0, 0, BindingActionView::Esc("\x1b[15~"@)),
        key_row(NamedKey::F6, 0, 0, 0, BindingActionView::Esc("\x1b[17~"@)),
        key_row(NamedKey::F7, 0, 0, 0, BindingActionView::Esc("\x1b[18~"@)),
        key_row(NamedKey::F8, 0, 0, 0, BindingActionView::Esc("\x1b[19~"@)),
        key_row(NamedKey::F9, 0, 0, 0, BindingActionView::Esc("\x1b[20~"@)),
        key_row(NamedKey::F10, 0, 0, 0, BindingActionView::Esc("\x1b[21~"@)),
        key_row(NamedKey::F11, 0, 0, 0, BindingActionView::Esc("\x1b[23~"@)),
        key_row(NamedKey::F12, 0, 0, 0, BindingActionView::Esc("\x1b[24~"@)),
        key_row(NamedKey::F13, 0, 0, 0, BindingActionView::Esc("\x1b[25~"@)),
        key_row(NamedKey::F14, 0, 0, 0, BindingActionView::Esc("\x1b[26~"@)),
        key_row(NamedKey::F15, 0, 0, 0, BindingActionView::Esc("\x1b[28~"@)),
        key_row(NamedKey::F16, 0, 0, 0, BindingActionView::Esc("\x1b[29~"@)),
        key_row(NamedKey::F17, 0, 0, 0, BindingActionView::Esc("\x1b[31~"@)),
        key_row(NamedKey::F18, 0, 0, 0, BindingActionView::Esc("\x1b[32~"@)),
        key_row(NamedKey::F19, 0, 0, 0, BindingActionView::Esc("\x1b[33~"@)),
        key_row(NamedKey::F20, 0, 0, 0, BindingActionView::Esc("\x1b[34~"@)),
    ]
}

/// Cursor keys outside application cursor mode.
pub open spec fn normal_cursor_rows() -> Seq<EntryView> {
    seq![
        key_row(NamedKey::End, 0, 0, APP_CURSOR, BindingActionView::Esc("\x1b[F"@)),
        key_row(NamedKey::Home, 0, 0, APP_CURSOR, BindingActionView::Esc("\x1b[H"@)),
        key_row(NamedKey::ArrowUp, 0, 0, APP_CURSOR, BindingActionView::Esc("\x1b[A"@)),
        key_row(NamedKey::ArrowDown, 0, 0, APP_CURSOR, BindingActionView::Esc("\x1b[B"@)),
        key_row(NamedKey::ArrowLeft, 0, 0, APP_CURSOR, BindingActionView::Esc("\x1b[D"@)),
        key_row(NamedKey::ArrowRight, 0, 0, APP_CURSOR, BindingActionView::Esc("\x1b[C"@)),
    ]
}

/// Cursor keys in application cursor mode.
pub open spec fn app_cursor_rows() -> Seq<EntryView> {
    seq![
        key_row(NamedKey::End, 0, APP_CURSOR, 0, BindingActionView::Esc("\x1BOF"@)),
        key_row(NamedKey::Home, 0, APP_CURSOR, 0, BindingActionView::Esc("\x1BOH"@)),
        key_row(NamedKey::ArrowUp, 0, APP_CURSOR, 0, BindingActionView::Esc("\x1bOA"@)),
        key_row(NamedKey::ArrowDown, 0, APP_CURSOR, 0, BindingActionView::Esc("\x1bOB"@)),
        key_row(NamedKey::ArrowLeft, 0, APP_CURSOR, 0, BindingActionView::Esc("\x1bOD"@)),
        key_row(NamedKey::ArrowRight, 0, APP_CURSOR, 0, BindingActionView::Esc("\x1bOC"@)),
    ]
}

/// Keys with control (arrows with the command key).
pub open spec fn ctrl_key_rows(command: u32) -> Seq<EntryView> {
    seq![
        key_row(NamedKey::ArrowUp, command, 0, 0, BindingActionView::Esc("\x1b[1;5A"@)),
        key_row(NamedKey::ArrowDown, command, 0, 0, BindingActionView::Esc("\x1b[1;5B"@)),
        key_row(NamedKey::ArrowLeft, command, 0, 0, BindingActionView::Esc("\x1b[1;5D"@)),
        key_row(NamedKey::ArrowRight, command, 0, 0, BindingActionView::Esc("\x1b[1;5C"@)),
        key_row(NamedKey::End, CTRL, 0, 0, BindingActionView::Esc("\x1b[1;5F"@)),
        key_row(NamedKey::Home, CTRL, 0, 0, BindingActionView::Esc("\x1b[1;5H"@)),
        key_row(NamedKey::Delete, CTRL, 0, 0, BindingActionView::Esc("\x1b[3;5~"@)),
        key_row(NamedKey::PageUp, CTRL, 0, 0, BindingActionView::Esc("\x1b[5;5~"@)),
        key_row(NamedKey::PageDown, CTRL, 0, 0, BindingActionView::Esc("\x1b[6;5~"@)),
        key_row(NamedKey::F1, CTRL, 0, 0, BindingActionView::Esc("\x1bO;5P"@)),
        key_row(NamedKey::F2, CTRL, 0, 0, BindingActionView::Esc("\x1bO;5Q"@)),
        key_row(NamedKey::F3, CTRL, 0, 0, BindingActionView::Esc("\x1bO;5R"@)),
        key_row(NamedKey::F4, CTRL, 0, 0, BindingActionView::Esc("\x1bO;5S"@)),
        key_row(NamedKey::F5, CTRL, 0, 0, BindingActionView::Esc("\x1b[15;5~"@)),
        key_row(NamedKey::F6, CTRL, 0, 0, BindingActionView::Esc("\x1b[17;5~"@)),
        key_row(NamedKey::F7, CTRL, 0, 0, BindingActionView::Esc("\x1b[18;5~"@)),
        key_row(NamedKey::F8, CTRL, 0, 0, BindingActionView::Esc("\x1b[19;5~"@)),
        key_row(NamedKey::F9, CTRL, 0, 0, BindingActionView::Esc("\x1b[20;5~"@)),
        key_row(NamedKey::F10, CTRL, 0, 0, BindingActionView::Esc("\x1b[21;5~"@)),
        key_row(NamedKey::F11, CTRL, 0, 0, BindingActionView::Esc("\x1b[23;5~"@)),
        key_row(NamedKey::F12, CTRL, 0, 0, BindingActionView::Esc("\x1b[24;5~"@)),
    ]
}

/// The C0 control characters under control.
pub open spec fn ctrl_char_rows() -> Seq<EntryView> {
    seq![
        char_row("a"@, CTRL, 0, 0, BindingActionView::Char('\x01')),
        char_row("b"@, CTRL, 0, 0, BindingActionView::Char('\x02')),
        char_row("c"@, CTRL, 0, 0, BindingActionView::Char('\x03')),
        char_row("d"@, CTRL, 0, 0, BindingActionView::Char('\x04')),
        char_row("e"@, CTRL, 0, 0, BindingActionView::Char('\x05')),
        char_row("f"@, CTRL, 0, 0, BindingActionView::Char('\x06')),
        char_row("g"@, CTRL, 0, 0, BindingActionView::Char('\x07')),
        char_row("h"@, CTRL, 0, 0, BindingActionView::Char('\x08')),
        char_row("i"@, CTRL, 0, 0, BindingActionView::Char('\x09')),
        char_row("j"@, CTRL, 0, 0, BindingActionView::Char('\x0a')),
        char_row("k"@, CTRL, 0, 0, BindingActionView::Char('\x0b')),
        char_row("l"@, CTRL, 0, 0, BindingActionView::Char('\x0c')),
        char_row("m"@, CTRL, 0, 0, BindingActionView::Char('\x0d')),
        char_row("n"@, CTRL, 0, 0, BindingActionView::Char('\x0e')),
        char_row("o"@, CTRL, 0, 0, BindingActionView::Char('\x0f')),
        char_row("p"@, CTRL, 0, 0, BindingActionView::Char('\x10')),
        char_row("q"@, CTRL, 0, 0, BindingActionView::Char('\x11')),
        char_row("r"@, CTRL, 0, 0, BindingActionView::Char('\x12')),
        char_row("s"@, CTRL, 0, 0, BindingActionView::Char('\x13')),
        char_row("t"@, CTRL, 0, 0, BindingActionView::Char('\x14')),
        char_row("u"@, CTRL, 0, 0, BindingActionView::Char('\x51')),
        char_row("v"@, CTRL, 0, 0, BindingActionView::Char('\x16')),
        char_row("w"@, CTRL, 0, 0, BindingActionView::Char('\x17')),
        char_row("x"@, CTRL, 0, 0, BindingActionView::Char('\x18')),
        char_row("y"@, CTRL, 0, 0, BindingActionView::Char('\x19')),
        char_row("z"@, CTRL, 0, 0, BindingActionView::Char('\x1a')),
        char_row("["@, CTRL, 0, 0, BindingActionView::Char('\x1b')),
        char_row("]"@, CTRL, 0, 0, BindingActionView::Char('\x1d')),
        char_row("\'"@, CTRL, 0, 0, BindingActionView::Char('\x1c')),
        char_row("-"@, CTRL, 0, 0, BindingActionView::Char('\x1f')),
    ]
}

/// Keys with shift.
pub open spec fn shift_rows() -> Seq<EntryView> {
    seq![
        key_row(NamedKey::Enter, SHIFT, 0, 0, BindingActionView::Char('\x0d')),
        key_row(NamedKey::Backspace, SHIFT, 0, 0, BindingActionView::Char('\x7f')),
        key_row(NamedKey::Tab, SHIFT, 0, 0, BindingActionView::Esc("\x1b[Z"@)),
        key_row(NamedKey::End, SHIFT, ALT_SCREEN, 0, BindingActionView::Esc("\x1b[1;2F"@)),
        key_row(NamedKey::Home, SHIFT, ALT_SCREEN, 0, BindingActionView::Esc("\x1b[1;2H"@)),
        key_row(NamedKey::PageUp, SHIFT, ALT_SCREEN, 0, BindingActionView::Esc("\x1b[5;2~"@)),
        key_row(NamedKey::PageDown, SHIFT, ALT_SCREEN, 0, BindingActionView::Esc("\x1b[6;2~"@)),
        key_row(NamedKey::ArrowUp, SHIFT, 0, 0, BindingActionView::Esc("\x1b[1;2A"@)),
        key_row(NamedKey::ArrowDown, SHIFT, 0, 0, BindingActionView::Esc("\x1b[1;2B"@)),
        key_row(NamedKey::ArrowLeft, SHIFT, 0, 0, BindingActionView::Esc("\x1b[1;2D"@)),
        key_row(NamedKey::ArrowRight, SHIFT, 0, 0, BindingActionView::Esc("\x1b[1;2C"@)),
    ]
}

/// Keys with alt.
pub open spec fn alt_rows() -> Seq<EntryView> {
    seq![
        key_row(NamedKey::Backspace, ALT, 0, 0, BindingActionView::Esc("\x1b\x7f"@)),
        key_row(NamedKey::End, ALT, 0, 0, BindingActionView::Esc("\x1b[1;3F"@)),
        key_row(NamedKey::Home, ALT, 0, 0, BindingActionView::Esc("\x1b[1;3H"@)),
        key_row(NamedKey::Insert, ALT, 0, 0, BindingActionView::Esc("\x1b[3;2~"@)),
        key_row(NamedKey::Delete, ALT, 0, 0, BindingActionView::Esc("\x1b[3;3~"@)),
        key_row(NamedKey::PageUp, ALT, 0, 0, BindingActionView::Esc("\x1b[5;3~"@)),
        key_row(NamedKey::PageDown, ALT, 0, 0, BindingActionView::Esc("\x1b[6;3~"@)),
        key_row(NamedKey::ArrowUp, ALT, 0, 0, BindingActionView::Esc("\x1b[1;3A"@)),
        key_row(NamedKey::ArrowDown, ALT, 0, 0, BindingActionView::Esc("\x1b[1;3B"@)),
        key_row(NamedKey::ArrowLeft, ALT, 0, 0, BindingActionView::Esc("\x1b[1;3D"@)),
        key_row(NamedKey::ArrowRight, ALT, 0, 0, BindingActionView::Esc("\x1b[1;3C"@)),
    ]
}

/// Keys with shift and alt.
pub open spec fn shift_alt_rows() -> Seq<EntryView> {
    seq![
        key_row(NamedKey::End, SHIFT | ALT, 0, 0, BindingActionView::Esc("\x1b[1;4F"@)),
        key_row(NamedKey::Home, SHIFT | ALT, 0, 0, BindingActionView::Esc("\x1b[1;4H"@)),
        key_row(NamedKey::ArrowUp, SHIFT | ALT, 0, 0, BindingActionView::Esc("\x1b[1;4A"@)),
        key_row(NamedKey::ArrowDown, SHIFT | ALT, 0, 0, BindingActionView::Esc("\x1b[1;4B"@)),
        key_row(NamedKey::ArrowLeft, SHIFT | ALT, 0, 0, BindingActionView::Esc("\x1b[1;4D"@)),
        key_row(NamedKey::ArrowRight, SHIFT | ALT, 0, 0, BindingActionView::Esc("\x1b[1;4C"@)),
    ]
}

/// Keys with shift and control.
pub open spec fn shift_ctrl_key_rows() -> Seq<EntryView> {
    seq![
        key_row(NamedKey::End, SHIFT | CTRL, 0, 0, BindingActionView::Esc("\x1b[1;6F"@)),
        key_row(NamedKey::Home, SHIFT | CTRL, 0, 0, BindingActionView::Esc("\x1b[1;6H"@)),
        key_row(NamedKey::ArrowUp, SHIFT | CTRL, 0, 0, BindingActionView::Esc("\x1b[1;6A"@)),
        key_row(NamedKey::ArrowDown, SHIFT | CTRL, 0, 0, BindingActionView::Esc("\x1b[1;6B"@)),
        key_row(NamedKey::ArrowLeft, SHIFT | CTRL, 0, 0, BindingActionView::Esc("\x1b[1;6D"@)),
        key_row(NamedKey::ArrowRight, SHIFT | CTRL, 0, 0, BindingActionView::Esc("\x1b[1;6C"@)),
    ]
}

/// The C0 control characters under shift and control.
pub open spec fn shift_ctrl_char_rows() -> Seq<EntryView> {
    seq![
        char_row("a"@, SHIFT | CTRL, 0, 0, BindingActionView::Char('\x01')),
        char_row("b"@, SHIFT | CTRL, 0, 0, BindingActionView::Char('\x02')),
        char_row("c"@, SHIFT | CTRL, 0, 0, BindingActionView::Char('\x03')),
        char_row("d"@, SHIFT | CTRL, 0, 0, BindingActionView::Char('\x04')),
        char_row("e"@, SHIFT | CTRL, 0, 0, BindingActionView::Char('\x05')),
        char_row("f"@, SHIFT | CTRL, 0, 0, BindingActionView::Char('\x06')),
        char_row("g"@, SHIFT | CTRL, 0, 0, BindingActionView::Char('\x07')),
        char_row("h"@, SHIFT | CTRL, 0, 0, BindingActionView::Char('\x08')),
        char_row("i"@, SHIFT | CTRL, 0, 0, BindingActionView::Char('\x09')),
        char_row("j"@, SHIFT | CTRL, 0, 0, BindingActionView::Char('\x0a')),
        char_row("k"@, SHIFT | CTRL, 0, 0, BindingActionView::Char('\x0b')),
        char_row("l"@, SHIFT | CTRL, 0, 0, BindingActionView::Char('\x0c')),
        char_row("m"@, SHIFT | CTRL, 0, 0, BindingActionView::Char('\x0d')),
        char_row("n"@, SHIFT | CTRL, 0, 0, BindingActionView::Char('\x0e')),
        char_row("o"@, SHIFT | CTRL, 0, 0, BindingActionView::Char('\x0f')),
        char_row("p"@, SHIFT | CTRL, 0, 0, BindingActionView::Char('\x10')),
        char_row("q"@, SHIFT | CTRL, 0, 0, BindingActionView::Char('\x11')),
        char_row("r"@, SHIFT | CTRL, 0, 0, BindingActionView::Char('\x12')),
        char_row("s"@, SHIFT | CTRL, 0, 0, BindingActionView::Char('\x13')),
        char_row("t"@, SHIFT | CTRL, 0, 0, BindingActionView::Char('\x14')),
        char_row("u"@, SHIFT | CTRL, 0, 0, BindingActionView::Char('\x51')),
        char_row("v"@, SHIFT | CTRL, 0, 0, BindingActionView::Char('\x16')),
        char_row("w"@, SHIFT | CTRL, 0, 0, BindingActionView::Char('\x17')),
        char_row("x"@, SHIFT | CTRL, 0, 0, BindingActionView::Char('\x18')),
        char_row("y"@, SHIFT | CTRL, 0, 0, BindingActionView::Char('\x19')),
        char_row("z"@, SHIFT | CTRL, 0, 0, BindingActionView::Char('\x1a')),
        char_row("2"@, SHIFT | CTRL, 0, 0, BindingActionView::Char('\x00')),
        char_row("6"@, SHIFT | CTRL, 0, 0, BindingActionView::Char('\x1e')),
        char_row("_"@, SHIFT | CTRL, 0, 0, BindingActionView::Char('\x1f')),
    ]
}

/// Keys with control and alt.
pub open spec fn ctrl_alt_rows() -> Seq<EntryView> {
    seq![
        key_row(NamedKey::End, CTRL | ALT, 0, 0, BindingActionView::Esc("\x1b[1;7F"@)),
        key_row(NamedKey::Home, CTRL | ALT, 0, 0, BindingActionView::Esc("\x1b[1;7H"@)),
        key_row(NamedKey::PageUp, CTRL | ALT, 0, 0, BindingActionView::Esc("\x1b[5;7~"@)),
        key_row(NamedKey::PageDown, CTRL | ALT, 0, 0, BindingActionView::Esc("\x1b[6;7~"@)),
        key_row(NamedKey::ArrowUp, CTRL | ALT, 0, 0, BindingActionView::Esc("\x1b[1;7A"@)),
        key_row(NamedKey::ArrowDown, CTRL | ALT, 0, 0, BindingActionView::Esc("\x1b[1;7B"@)),
        key_row(NamedKey::ArrowLeft, CTRL | ALT, 0, 0, BindingActionView::Esc("\x1b[1;7D"@)),
        key_row(NamedKey::ArrowRight, CTRL | ALT, 0, 0, BindingActionView::Esc("\x1b[1;7C"@)),
    ]
}

/// Keys with shift, control and alt.
pub open spec fn shift_ctrl_alt_rows() -> Seq<EntryView> {
    seq![
        key_row(NamedKey::End, SHIFT | CTRL | ALT, 0, 0, BindingActionView::Esc("\x1b[1;8F"@)),
        key_row(NamedKey::Home, SHIFT | CTRL | ALT, 0, 0, BindingActionView::Esc("\x1b[1;8H"@)),
        key_row(NamedKey::ArrowUp, SHIFT | CTRL | ALT, 0, 0, BindingActionView::Esc("\x1b[1;8A"@)),
        key_row(NamedKey::ArrowDown, SHIFT | CTRL | ALT, 0, 0, BindingActionView::Esc("\x1b[1;8B"@)),
        key_row(NamedKey::ArrowLeft, SHIFT | CTRL | ALT, 0, 0, BindingActionView::Esc("\x1b[1;8D"@)),
        key_row(NamedKey::ArrowRight, SHIFT | CTRL | ALT, 0, 0, BindingActionView::Esc("\x1b[1;8C"@)),
    ]
}

/// The keyboard table before the platform and mouse entries are added.
pub open spec fn keyboard_rows(command: u32) -> Seq<EntryView> {
    plain_key_rows() + normal_cursor_rows() + app_cursor_rows() + ctrl_key_rows(command)
        + ctrl_char_rows() + shift_rows() + alt_rows() + shift_alt_rows() + shift_ctrl_key_rows()
        + shift_ctrl_char_rows() + ctrl_alt_rows() + shift_ctrl_alt_rows()
}

/// Copy and paste: command+c / command+v on macOS, where the command key is
/// LOGO; shift+command+c / shift+command+v elsewhere, apart from the control
/// characters.
pub open spec fn platform_rows(command: u32) -> Seq<EntryView> {
    if command == LOGO {
        seq![
            char_row("c"@, command, 0, 0, BindingActionView::Copy),
            char_row("v"@, command, 0, 0, BindingActionView::Paste),
        ]
    } else {
        seq![
            char_row("c"@, SHIFT | command, 0, 0, BindingActionView::Copy),
            char_row("v"@, SHIFT | command, 0, 0, BindingActionView::Paste),
        ]
    }
}

/// A left click with the command key opens the hovered link.
pub open spec fn mouse_rows(command: u32) -> Seq<EntryView> {
    seq![
        (
            BindingView {
                target: InputView::Mouse(Button::Left),
                modifiers: command,
                mode_include: 0,
                mode_exclude: 0,
            },
            BindingActionView::LinkOpen,
        ),
    ]
}

/// The whole default table for a platform whose command key is `command`.
pub open spec fn default_layout(command: u32) -> Seq<EntryView> {
    add_entries(add_entries(keyboard_rows(command), platform_rows(command)), mouse_rows(command))
}

/// The two sequences of a cursor key: outside and inside application cursor
/// mode.
pub open spec fn cursor_key_sequences(key: NamedKey) -> Option<(Seq<char>, Seq<char>)> {
    match key {
        NamedKey::End => Some(("\x1b[F"@, "\x1BOF"@)),
        NamedKey::Home => Some(("\x1b[H"@, "\x1BOH"@)),
        NamedKey::ArrowUp => Some(("\x1b[A"@, "\x1bOA"@)),
        NamedKey::ArrowDown => Some(("\x1b[B"@, "\x1bOB"@)),
        NamedKey::ArrowLeft => Some(("\x1b[D"@, "\x1bOD"@)),
        NamedKey::ArrowRight => Some(("\x1b[C"@, "\x1bOC"@)),
        _ => None,
    }
}

/// Without modifiers, a cursor key of the default table sends exactly one
/// of its two sequences in any terminal mode: the application sequence when
/// application cursor mode is set, the normal one otherwise.
pub proof fn lemma_cursor_keys_follow_app_cursor_mode(command: u32, key: NamedKey, mode: u32)
    requires
        cursor_key_sequences(key) is Some,
    ensures
        action_for(default_layout(command), InputView::KeyCode(key), 0, mode) == if bits_contain(
            mode,
            APP_CURSOR,
        ) {
            BindingActionView::Esc(cursor_key_sequences(key)->Some_0.1)
        } else {
            BindingActionView::Esc(cursor_key_sequences(key)->Some_0.0)
        },
{
    let input = InputView::KeyCode(key);
    let plain = plain_key_rows();
    let normal = normal_cursor_rows();
    let app = app_cursor_rows();
    let head = plain + normal + app;
    let tail = ctrl_key_rows(command) + ctrl_char_rows() + shift_rows() + alt_rows()
        + shift_alt_rows() + shift_ctrl_key_rows() + shift_ctrl_char_rows() + ctrl_alt_rows()
        + shift_ctrl_alt_rows();
    let keyboard = keyboard_rows(command);
    assert(keyboard =~= head + tail);
    let platform = platform_rows(command);
    let mouse = mouse_rows(command);
    assert forall|k: int| 0 <= k < platform.len() implies (#[trigger] platform[k]).0.target
        != input by {}
    assert forall|k: int| 0 <= k < mouse.len() implies (#[trigger] mouse[k]).0.target != input by {}
    lemma_add_entries_other_input(keyboard, platform, input, 0, mode);
    lemma_add_entries_other_input(add_entries(keyboard, platform), mouse, input, 0, mode);
    assert(bits_contain(mode, 0)) by (bit_vector);
    assert(!bits_intersect(mode, 0)) by (bit_vector);
    assert(bits_intersect(mode, APP_CURSOR) == bits_contain(mode, APP_CURSOR)) by (bit_vector);
    assert forall|i: int| 0 <= i < plain.len() implies !triggers(
        #[trigger] plain[i].0,
        input,
        0,
        mode,
    ) by {}
    lemma_action_for_concat(plain, normal, input, 0, mode);
    lemma_action_for_concat(plain + normal, app, input, 0, mode);
    lemma_action_for_concat(head, tail, input, 0, mode);
    lemma_some_triggers_concat(plain, normal, input, 0, mode);
    lemma_some_triggers_concat(plain + normal, app, input, 0, mode);
    reveal_with_fuel(action_for, 7);
    if bits_contain(mode, APP_CURSOR) {
        assert forall|i: int| 0 <= i < normal.len() implies !triggers(
            #[trigger] normal[i].0,
            input,
            0,
            mode,
        ) by {}
        assert(some_triggers(app, input, 0, mode));
    } else {
        assert(some_triggers(normal, input, 0, mode));
    }
}

fn binding(target: InputKind, modifiers: u32, mode_include: u32, mode_exclude: u32) -> (r: Binding)
    ensures
        r@ == (BindingView { target: target@, modifiers, mode_include, mode_exclude }),
{
    Binding {
        target,
        modifiers: Modifiers::from_bits(modifiers),
        terminal_mode_include: TermMode::from_bits(mode_include),
        terminal_mode_exclude: TermMode::from_bits(mode_exclude),
    }
}

fn key_binding(
    key: NamedKey,
    modifiers: u32,
    mode_include: u32,
    mode_exclude: u32,
    action: BindingAction,
) -> (r: Entry)
    ensures
        r@ == key_row(key, modifiers, mode_include, mode_exclude, action@),
{
    (binding(InputKind::KeyCode(key), modifiers, mode_include, mode_exclude), action)
}

fn char_binding(
    text: &str,
    modifiers: u32,
    mode_include: u32,
    mode_exclude: u32,
    action: BindingAction,
) -> (r: Entry)
    ensures
        r@ == char_row(text@, modifiers, mode_include, mode_exclude, action@),
{
    (binding(InputKind::Char(String::from_str(text)), modifiers, mode_include, mode_exclude), action)
}

fn esc(s: &str) -> (r: BindingAction)
    ensures
        r@ == BindingActionView::Esc(s@),
{
    BindingAction::Esc(String::from_str(s))
}

fn push_entry(v: &mut Vec<Entry>, e: Entry)
    ensures
        entries_view(final(v)@) == entries_view(old(v)@).push(e@),
{
    let ghost e_view = e@;
    v.push(e);
    assert(entries_view(v@) =~= entries_view(old(v)@).push(e_view));
}

fn push_plain_key_rows(v: &mut Vec<Entry>)
    ensures
        entries_view(final(v)@) == entries_view(old(v)@) + plain_key_rows(),
{
    push_entry(v, key_binding(NamedKey::Space, 0, 0, 0, BindingAction::Char(' ')));
    push_entry(v, key_binding(NamedKey::Enter, 0, 0, 0, BindingAction::Char('\x0d')));
    push_entry(v, key_binding(NamedKey::Backspace, 0, 0, 0, BindingAction::Char('\x7f')));
    push_entry(v, key_binding(NamedKey::Escape, 0, 0, 0, BindingAction::Char('\x1b')));
    push_entry(v, key_binding(NamedKey::Tab, 0, 0, 0, BindingAction::Char('\x09')));
    push_entry(v, key_binding(NamedKey::Insert, 0, 0, 0, esc("\x1b[2~")));
    push_entry(v, key_binding(NamedKey::Delete, 0, 0, 0, esc("\x1b[3~")));
    push_entry(v, key_binding(NamedKey::PageUp, 0, 0, 0, esc("\x1b[5~")));
    push_entry(v, key_binding(NamedKey::PageDown, 0, 0, 0, esc("\x1b[6~")));
    push_entry(v, key_binding(NamedKey::F1, 0, 0, 0, esc("\x1bOP")));
    push_entry(v, key_binding(NamedKey::F2, 0, 0, 0, esc("\x1bOQ")));
    push_entry(v, key_binding(NamedKey::F3, 0, 0, 0, esc("\x1bOR")));
    push_entry(v, key_binding(NamedKey::F4, 0, 0, 0, esc("\x1bOS")));
    push_entry(v, key_binding(NamedKey::F5, 0, 0, 0, esc("\x1b[15~")));
    push_entry(v, key_binding(NamedKey::F6, 0, 0, 0, esc("\x1b[17~")));
    push_entry(v, key_binding(NamedKey::F7, 0, 0, 0, esc("\x1b[18~")));
    push_entry(v, key_binding(NamedKey::F8, 0, 0, 0, esc("\x1b[19~")));
    push_entry(v, key_binding(NamedKey::F9, 0, 0, 0, esc("\x1b[20~")));
    push_entry(v, key_binding(NamedKey::F10, 0, 0, 0, esc("\x1b[21~")));
    push_entry(v, key_binding(NamedKey::F11, 0, 0, 0, esc("\x1b[23~")));
    push_entry(v, key_binding(NamedKey::F12, 0, 0, 0, esc("\x1b[24~")));
    push_entry(v, key_binding(NamedKey::F13, 0, 0, 0, esc("\x1b[25~")));
    push_entry(v, key_binding(NamedKey::F14, 0, 0, 0, esc("\x1b[26~")));
    push_entry(v, key_binding(NamedKey::F15, 0, 0, 0, esc("\x1b[28~")));
    push_entry(v, key_binding(NamedKey::F16, 0, 0, 0, esc("\x1b[29~")));
    push_entry(v, key_binding(NamedKey::F17, 0, 0, 0, esc("\x1b[31~")));
    push_entry(v, key_binding(NamedKey::F18, 0, 0, 0, esc("\x1b[32~")));
    push_entry(v, key_binding(NamedKey::F19, 0, 0, 0, esc("\x1b[33~")));
    push_entry(v, key_binding(NamedKey::F20, 0, 0, 0, esc("\x1b[34~")));
    assert(entries_view(v@) =~= entries_view(old(v)@) + plain_key_rows());
}

fn push_normal_cursor_rows(v: &mut Vec<Entry>)
    ensures
        entries_view(final(v)@) == entries_view(old(v)@) + normal_cursor_rows(),
{
    push_entry(v, key_binding(NamedKey::End, 0, 0, APP_CURSOR, esc("\x1b[F")));
    push_entry(v, key_binding(NamedKey::Home, 0, 0, APP_CURSOR, esc("\x1b[H")));
    push_entry(v, key_binding(NamedKey::ArrowUp, 0, 0, APP_CURSOR, esc("\x1b[A")));
    push_entry(v, key_binding(NamedKey::ArrowDown, 0, 0, APP_CURSOR, esc("\x1b[B")));
    push_entry(v, key_binding(NamedKey::ArrowLeft, 0, 0, APP_CURSOR, esc("\x1b[D")));
    push_entry(v, key_binding(NamedKey::ArrowRight, 0, 0, APP_CURSOR, esc("\x1b[C")));
    assert(entries_view(v@) =~= entries_view(old(v)@) + normal_cursor_rows());
}

fn push_app_cursor_rows(v: &mut Vec<Entry>)
    ensures
        entries_view(final(v)@) == entries_view(old(v)@) + app_cursor_rows(),
{
    push_entry(v, key_binding(NamedKey::End, 0, APP_CURSOR, 0, esc("\x1BOF")));
    push_entry(v, key_binding(NamedKey::Home, 0, APP_CURSOR, 0, esc("\x1BOH")));
    push_entry(v, key_binding(NamedKey::ArrowUp, 0, APP_CURSOR, 0, esc("\x1bOA")));
    push_entry(v, key_binding(NamedKey::ArrowDown, 0, APP_CURSOR, 0, esc("\x1bOB")));
    push_entry(v, key_binding(NamedKey::ArrowLeft, 0, APP_CURSOR, 0, esc("\x1bOD")));
    push_entry(v, key_binding(NamedKey::ArrowRight, 0, APP_CURSOR, 0, esc("\x1bOC")));
    assert(entries_view(v@) =~= entries_view(old(v)@) + app_cursor_rows());
}

fn push_ctrl_key_rows(v: &mut Vec<Entry>, command: u32)
    ensures
        entries_view(final(v)@) == entries_view(old(v)@) + ctrl_key_rows(command),
{
    push_entry(v, key_binding(NamedKey::ArrowUp, command, 0, 0, esc("\x1b[1;5A")));
    push_entry(v, key_binding(NamedKey::ArrowDown, command, 0, 0, esc("\x1b[1;5B")));
    push_entry(v, key_binding(NamedKey::ArrowLeft, command, 0, 0, esc("\x1b[1;5D")));
    push_entry(v, key_binding(NamedKey::ArrowRight, command, 0, 0, esc("\x1b[1;5C")));
    push_entry(v, key_binding(NamedKey::End, CTRL, 0, 0, esc("\x1b[1;5F")));
    push_entry(v, key_binding(NamedKey::Home, CTRL, 0, 0, esc("\x1b[1;5H")));
    push_entry(v, key_binding(NamedKey::Delete, CTRL, 0, 0, esc("\x1b[3;5~")));
    push_entry(v, key_binding(NamedKey::PageUp, CTRL, 0, 0, esc("\x1b[5;5~")));
    push_entry(v, key_binding(NamedKey::PageDown, CTRL, 0, 0, esc("\x1b[6;5~")));
    push_entry(v, key_binding(NamedKey::F1, CTRL, 0, 0, esc("\x1bO;5P")));
    push_entry(v, key_binding(NamedKey::F2, CTRL, 0, 0, esc("\x1bO;5Q")));
    push_entry(v, key_binding(NamedKey::F3, CTRL, 0, 0, esc("\x1bO;5R")));
    push_entry(v, key_binding(NamedKey::F4, CTRL, 0, 0, esc("\x1bO;5S")));
    push_entry(v, key_binding(NamedKey::F5, CTRL, 0, 0, esc("\x1b[15;5~")));
    push_entry(v, key_binding(NamedKey::F6, CTRL, 0, 0, esc("\x1b[17;5~")));
    push_entry(v, key_binding(NamedKey::F7, CTRL, 0, 0, esc("\x1b[18;5~")));
    push_entry(v, key_binding(NamedKey::F8, CTRL, 0, 0, esc("\x1b[19;5~")));
    push_entry(v, key_binding(NamedKey::F9, CTRL, 0, 0, esc("\x1b[20;5~")));
    push_entry(v, key_binding(NamedKey::F10, CTRL, 0, 0, esc("\x1b[21;5~")));
    push_entry(v, key_binding(NamedKey::F11, CTRL, 0, 0, esc("\x1b[23;5~")));
    push_entry(v, key_binding(NamedKey::F12, CTRL, 0, 0, esc("\x1b[24;5~")));
    assert(entries_view(v@) =~= entries_view(old(v)@) + ctrl_key_rows(command));
}

fn push_ctrl_char_rows(v: &mut Vec<Entry>)
    ensures
        entries_view(final(v)@) == entries_view(old(v)@) + ctrl_char_rows(),
{
    push_entry(v, char_binding("a", CTRL, 0, 0, BindingAction::Char('\x01')));
    push_entry(v, char_binding("b", CTRL, 0, 0, BindingAction::Char('\x02')));
    push_entry(v, char_binding("c", CTRL, 0, 0, BindingAction::Char('\x03')));
    push_entry(v, char_binding("d", CTRL, 0, 0, BindingAction::Char('\x04')));
    push_entry(v, char_binding("e", CTRL, 0, 0, BindingAction::Char('\x05')));
    push_entry(v, char_binding("f", CTRL, 0, 0, BindingAction::Char('\x06')));
    push_entry(v, char_binding("g", CTRL, 0, 0, BindingAction::Char('\x07')));
    push_entry(v, char_binding("h", CTRL, 0, 0, BindingAction::Char('\x08')));
    push_entry(v, char_binding("i", CTRL, 0, 0, BindingAction::Char('\x09')));
    push_entry(v, char_binding("j", CTRL, 0, 0, BindingAction::Char('\x0a')));
    push_entry(v, char_binding("k", CTRL, 0, 0, BindingAction::Char('\x0b')));
    push_entry(v, char_binding("l", CTRL, 0, 0, BindingAction::Char('\x0c')));
    push_entry(v, char_binding("m", CTRL, 0, 0, BindingAction::Char('\x0d')));
    push_entry(v, char_binding("n", CTRL, 0, 0, BindingAction::Char('\x0e')));
    push_entry(v, char_binding("o", CTRL, 0, 0, BindingAction::Char('\x0f')));
    push_entry(v, char_binding("p", CTRL, 0, 0, BindingAction::Char('\x10')));
    push_entry(v, char_binding("q", CTRL, 0, 0, BindingAction::Char('\x11')));
    push_entry(v, char_binding("r", CTRL, 0, 0, BindingAction::Char('\x12')));
    push_entry(v, char_binding("s", CTRL, 0, 0, BindingAction::Char('\x13')));
    push_entry(v, char_binding("t", CTRL, 0, 0, BindingAction::Char('\x14')));
    push_entry(v, char_binding("u", CTRL, 0, 0, BindingAction::Char('\x51')));
    push_entry(v, char_binding("v", CTRL, 0, 0, BindingAction::Char('\x16')));
    push_entry(v, char_binding("w", CTRL, 0, 0, BindingAction::Char('\x17')));
    push_entry(v, char_binding("x", CTRL, 0, 0, BindingAction::Char('\x18')));
    push_entry(v, char_binding("y", CTRL, 0, 0, BindingAction::Char('\x19')));
    push_entry(v, char_binding("z", CTRL, 0, 0, BindingAction::Char('\x1a')));
    push_entry(v, char_binding("[", CTRL, 0, 0, BindingAction::Char('\x1b')));
    push_entry(v, char_binding("]", CTRL, 0, 0, BindingAction::Char('\x1d')));
    push_entry(v, char_binding("\'", CTRL, 0, 0, BindingAction::Char('\x1c')));
    push_entry(v, char_binding("-", CTRL, 0, 0, BindingAction::Char('\x1f')));
    assert(entries_view(v@) =~= entries_view(old(v)@) + ctrl_char_rows());
}

fn push_shift_rows(v: &mut Vec<Entry>)
    ensures
        entries_view(final(v)@) == entries_view(old(v)@) + shift_rows(),
{
    push_entry(v, key_binding(NamedKey::Enter, SHIFT, 0, 0, BindingAction::Char('\x0d')));
    push_entry(v, key_binding(NamedKey::Backspace, SHIFT, 0, 0, BindingAction::Char('\x7f')));
    push_entry(v, key_binding(NamedKey::Tab, SHIFT, 0, 0, esc("\x1b[Z")));
    push_entry(v, key_binding(NamedKey::End, SHIFT, ALT_SCREEN, 0, esc("\x1b[1;2F")));
    push_entry(v, key_binding(NamedKey::Home, SHIFT, ALT_SCREEN, 0, esc("\x1b[1;2H")));
    push_entry(v, key_binding(NamedKey::PageUp, SHIFT, ALT_SCREEN, 0, esc("\x1b[5;2~")));
    push_entry(v, key_binding(NamedKey::PageDown, SHIFT, ALT_SCREEN, 0, esc("\x1b[6;2~")));
    push_entry(v, key_binding(NamedKey::ArrowUp, SHIFT, 0, 0, esc("\x1b[1;2A")));
    push_entry(v, key_binding(NamedKey::ArrowDown, SHIFT, 0, 0, esc("\x1b[1;2B")));
    push_entry(v, key_binding(NamedKey::ArrowLeft, SHIFT, 0, 0, esc("\x1b[1;2D")));
    push_entry(v, key_binding(NamedKey::ArrowRight, SHIFT, 0, 0, esc("\x1b[1;2C")));
    assert(entries_view(v@) =~= entries_view(old(v)@) + shift_rows());
}

fn push_alt_rows(v: &mut Vec<Entry>)
    ensures
        entries_view(final(v)@) == entries_view(old(v)@) + alt_rows(),
{
    push_entry(v, key_binding(NamedKey::Backspace, ALT, 0, 0, esc("\x1b\x7f")));
    push_entry(v, key_binding(NamedKey::End, ALT, 0, 0, esc("\x1b[1;3F")));
    push_entry(v, key_binding(NamedKey::Home, ALT, 0, 0, esc("\x1b[1;3H")));
    push_entry(v, key_binding(NamedKey::Insert, ALT, 0, 0, esc("\x1b[3;2~")));
    push_entry(v, key_binding(NamedKey::Delete, ALT, 0, 0, esc("\x1b[3;3~")));
    push_entry(v, key_binding(NamedKey::PageUp, ALT, 0, 0, esc("\x1b[5;3~")));
    push_entry(v, key_binding(NamedKey::PageDown, ALT, 0, 0, esc("\x1b[6;3~")));
    push_entry(v, key_binding(NamedKey::ArrowUp, ALT, 0, 0, esc("\x1b[1;3A")));
    push_entry(v, key_binding(NamedKey::ArrowDown, ALT, 0, 0, esc("\x1b[1;3B")));
    push_entry(v, key_binding(NamedKey::ArrowLeft, ALT, 0, 0, esc("\x1b[1;3D")));
    push_entry(v, key_binding(NamedKey::ArrowRight, ALT, 0, 0, esc("\x1b[1;3C")));
    assert(entries_view(v@) =~= entries_view(old(v)@) + alt_rows());
}

fn push_shift_alt_rows(v: &mut Vec<Entry>)
    ensures
        entries_view(final(v)@) == entries_view(old(v)@) + shift_alt_rows(),
{
    push_entry(v, key_binding(NamedKey::End, SHIFT | ALT, 0, 0, esc("\x1b[1;4F")));
    push_entry(v, key_binding(NamedKey::Home, SHIFT | ALT, 0, 0, esc("\x1b[1;4H")));
    push_entry(v, key_binding(NamedKey::ArrowUp, SHIFT | ALT, 0, 0, esc("\x1b[1;4A")));
    push_entry(v, key_binding(NamedKey::ArrowDown, SHIFT | ALT, 0, 0, esc("\x1b[1;4B")));
    push_entry(v, key_binding(NamedKey::ArrowLeft, SHIFT | ALT, 0, 0, esc("\x1b[1;4D")));
    push_entry(v, key_binding(NamedKey::ArrowRight, SHIFT | ALT, 0, 0, esc("\x1b[1;4C")));
    assert(entries_view(v@) =~= entries_view(old(v)@) + shift_alt_rows());
}

fn push_shift_ctrl_key_rows(v: &mut Vec<Entry>)
    ensures
        entries_view(final(v)@) == entries_view(old(v)@) + shift_ctrl_key_rows(),
{
    push_entry(v, key_binding(NamedKey::End, SHIFT | CTRL, 0, 0, esc("\x1b[1;6F")));
    push_entry(v, key_binding(NamedKey::Home, SHIFT | CTRL, 0, 0, esc("\x1b[1;6H")));
    push_entry(v, key_binding(NamedKey::ArrowUp, SHIFT | CTRL, 0, 0, esc("\x1b[1;6A")));
    push_entry(v, key_binding(NamedKey::ArrowDown, SHIFT | CTRL, 0, 0, esc("\x1b[1;6B")));
    push_entry(v, key_binding(NamedKey::ArrowLeft, SHIFT | CTRL, 0, 0, esc("\x1b[1;6D")));
    push_entry(v, key_binding(NamedKey::ArrowRight, SHIFT | CTRL, 0, 0, esc("\x1b[1;6C")));
    assert(entries_view(v@) =~= entries_view(old(v)@) + shift_ctrl_key_rows());
}

fn push_shift_ctrl_char_rows(v: &mut Vec<Entry>)
    ensures
        entries_view(final(v)@) == entries_view(old(v)@) + shift_ctrl_char_rows(),
{
    push_entry(v, char_binding("a", SHIFT | CTRL, 0, 0, BindingAction::Char('\x01')));
    push_entry(v, char_binding("b", SHIFT | CTRL, 0, 0, BindingAction::Char('\x02')));
    push_entry(v, char_binding("c", SHIFT | CTRL, 0, 0, BindingAction::Char('\x03')));
    push_entry(v, char_binding("d", SHIFT | CTRL, 0, 0, BindingAction::Char('\x04')));
    push_entry(v, char_binding("e", SHIFT | CTRL, 0, 0, BindingAction::Char('\x05')));
    push_entry(v, char_binding("f", SHIFT | CTRL, 0, 0, BindingAction::Char('\x06')));
    push_entry(v, char_binding("g", SHIFT | CTRL, 0, 0, BindingAction::Char('\x07')));
    push_entry(v, char_binding("h", SHIFT | CTRL, 0, 0, BindingAction::Char('\x08')));
    push_entry(v, char_binding("i", SHIFT | CTRL, 0, 0, BindingAction::Char('\x09')));
    push_entry(v, char_binding("j", SHIFT | CTRL, 0, 0, BindingAction::Char('\x0a')));
    push_entry(v, char_binding("k", SHIFT | CTRL, 0, 0, BindingAction::Char('\x0b')));
    push_entry(v, char_binding("l", SHIFT | CTRL, 0, 0, BindingAction::Char('\x0c')));
    push_entry(v, char_binding("m", SHIFT | CTRL, 0, 0, BindingAction::Char('\x0d')));
    push_entry(v, char_binding("n", SHIFT | CTRL, 0, 0, BindingAction::Char('\x0e')));
    push_entry(v, char_binding("o", SHIFT | CTRL, 0, 0, BindingAction::Char('\x0f')));
    push_entry(v, char_binding("p", SHIFT | CTRL, 0, 0, BindingAction::Char('\x10')));
    push_entry(v, char_binding("q", SHIFT | CTRL, 0, 0, BindingAction::Char('\x11')));
    push_entry(v, char_binding("r", SHIFT | CTRL, 0, 0, BindingAction::Char('\x12')));
    push_entry(v, char_binding("s", SHIFT | CTRL, 0, 0, BindingAction::Char('\x13')));
    push_entry(v, char_binding("t", SHIFT | CTRL, 0, 0, BindingAction::Char('\x14')));
    push_entry(v, char_binding("u", SHIFT | CTRL, 0, 0, BindingAction::Char('\x51')));
    push_entry(v, char_binding("v", SHIFT | CTRL, 0, 0, BindingAction::Char('\x16')));
    push_entry(v, char_binding("w", SHIFT | CTRL, 0, 0, BindingAction::Char('\x17')));
    push_entry(v, char_binding("x", SHIFT | CTRL, 0, 0, BindingAction::Char('\x18')));
    push_entry(v, char_binding("y", SHIFT | CTRL, 0, 0, BindingAction::Char('\x19')));
    push_entry(v, char_binding("z", SHIFT | CTRL, 0, 0, BindingAction::Char('\x1a')));
    push_entry(v, char_binding("2", SHIFT | CTRL, 0, 0, BindingAction::Char('\x00')));
    push_entry(v, char_binding("6", SHIFT | CTRL, 0, 0, BindingAction::Char('\x1e')));
    push_entry(v, char_binding("_", SHIFT | CTRL, 0, 0, BindingAction::Char('\x1f')));
    assert(entries_view(v@) =~= entries_view(old(v)@) + shift_ctrl_char_rows());
}

fn push_ctrl_alt_rows(v: &mut Vec<Entry>)
    ensures
        entries_view(final(v)@) == entries_view(old(v)@) + ctrl_alt_rows(),
{
    push_entry(v, key_binding(NamedKey::End, CTRL | ALT, 0, 0, esc("\x1b[1;7F")));
    push_entry(v, key_binding(NamedKey::Home, CTRL | ALT, 0, 0, esc("\x1b[1;7H")));
    push_entry(v, key_binding(NamedKey::PageUp, CTRL | ALT, 0, 0, esc("\x1b[5;7~")));
    push_entry(v, key_binding(NamedKey::PageDown, CTRL | ALT, 0, 0, esc("\x1b[6;7~")));
    push_entry(v, key_binding(NamedKey::ArrowUp, CTRL | ALT, 0, 0, esc("\x1b[1;7A")));
    push_entry(v, key_binding(NamedKey::ArrowDown, CTRL | ALT, 0, 0, esc("\x1b[1;7B")));
    push_entry(v, key_binding(NamedKey::ArrowLeft, CTRL | ALT, 0, 0, esc("\x1b[1;7D")));
    push_entry(v, key_binding(NamedKey::ArrowRight, CTRL | ALT, 0, 0, esc("\x1b[1;7C")));
    assert(entries_view(v@) =~= entries_view(old(v)@) + ctrl_alt_rows());
}

fn push_shift_ctrl_alt_rows(v: &mut Vec<Entry>)
    ensures
        entries_view(final(v)@) == entries_view(old(v)@) + shift_ctrl_alt_rows(),
{
    push_entry(v, key_binding(NamedKey::End, SHIFT | CTRL | ALT, 0, 0, esc("\x1b[1;8F")));
    push_entry(v, key_binding(NamedKey::Home, SHIFT | CTRL | ALT, 0, 0, esc("\x1b[1;8H")));
    push_entry(v, key_binding(NamedKey::ArrowUp, SHIFT | CTRL | ALT, 0, 0, esc("\x1b[1;8A")));
    push_entry(v, key_binding(NamedKey::ArrowDown, SHIFT | CTRL | ALT, 0, 0, esc("\x1b[1;8B")));
    push_entry(v, key_binding(NamedKey::ArrowLeft, SHIFT | CTRL | ALT, 0, 0, esc("\x1b[1;8D")));
    push_entry(v, key_binding(NamedKey::ArrowRight, SHIFT | CTRL | ALT, 0, 0, esc("\x1b[1;8C")));
    assert(entries_view(v@) =~= entries_view(old(v)@) + shift_ctrl_alt_rows());
}

/// The keyboard table before the platform and mouse entries are added.
pub(crate) fn default_keyboard_bindings(command: u32) -> (r: Vec<Entry>)
    ensures
        entries_view(r@) == keyboard_rows(command),
{
    let mut v: Vec<Entry> = Vec::new();
    assert(entries_view(v@) =~= Seq::<EntryView>::empty());
    push_plain_key_rows(&mut v);
    push_normal_cursor_rows(&mut v);
    push_app_cursor_rows(&mut v);
    push_ctrl_key_rows(&mut v, command);
    push_ctrl_char_rows(&mut v);
    push_shift_rows(&mut v);
    push_alt_rows(&mut v);
    push_shift_alt_rows(&mut v);
    push_shift_ctrl_key_rows(&mut v);
    push_shift_ctrl_char_rows(&mut v);
    push_ctrl_alt_rows(&mut v);
    push_shift_ctrl_alt_rows(&mut v);
    assert(entries_view(v@) =~= keyboard_rows(command));
    v
}

/// The platform copy/paste entries.
pub(crate) fn platform_keyboard_bindings(command: u32) -> (r: Vec<Entry>)
    ensures
        entries_view(r@) == platform_rows(command),
{
    let mut v: Vec<Entry> = Vec::new();
    assert(entries_view(v@) =~= Seq::<EntryView>::empty());
    if command == LOGO {
        push_entry(&mut v, char_binding("c", command, 0, 0, BindingAction::Copy));
        push_entry(&mut v, char_binding("v", command, 0, 0, BindingAction::Paste));
    } else {
        push_entry(&mut v, char_binding("c", SHIFT | command, 0, 0, BindingAction::Copy));
        push_entry(&mut v, char_binding("v", SHIFT | command, 0, 0, BindingAction::Paste));
    }
    assert(entries_view(v@) =~= platform_rows(command));
    v
}

/// The default mouse entries.
pub(crate) fn mouse_default_bindings(command: u32) -> (r: Vec<Entry>)
    ensures
        entries_view(r@) == mouse_rows(command),
{
    let mut v: Vec<Entry> = Vec::new();
    assert(entries_view(v@) =~= Seq::<EntryView>::empty());
    push_entry(
        &mut v,
        (binding(InputKind::Mouse(Button::Left), command, 0, 0), BindingAction::LinkOpen),
    );
    assert(entries_view(v@) =~= mouse_rows(command));
    v
}

} // verus!
