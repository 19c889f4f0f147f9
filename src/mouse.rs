//! xterm mouse reports: the SGR form with decimal coordinates and the
//! legacy six-byte form (with its UTF-8 extension).

use vstd::prelude::*;
use crate::grid::GridPoint;
use crate::modes::{bits_contain, Modifiers, TermMode, ALT, SGR_MOUSE, SHIFT, UTF8_MOUSE};

verus! {

/// A mouse event as xterm numbers it.
#[derive(Clone, Copy, Debug, PartialEq, Eq, Structural, Hash)]
pub enum MouseButton {
    LeftButton,
    MiddleButton,
    RightButton,
    LeftMove,
    MiddleMove,
    RightMove,
    NoneMove,
    ScrollUp,
    ScrollDown,
    Other,
}

pub open spec fn button_code(b: MouseButton) -> u8 {
    match b {
        MouseButton::LeftButton => 0,
        MouseButton::MiddleButton => 1,
        MouseButton::RightButton => 2,
        MouseButton::LeftMove => 32,
        MouseButton::MiddleMove => 33,
        MouseButton::RightMove => 34,
        MouseButton::NoneMove => 35,
        MouseButton::ScrollUp => 64,
        MouseButton::ScrollDown => 65,
        MouseButton::Other => 99,
    }
}

impl MouseButton {
    /// The xterm button number.
    pub fn code(self) -> (r: u8)
        ensures
            r == button_code(self),
    {
        match self {
            MouseButton::LeftButton => 0,
            MouseButton::MiddleButton => 1,
            MouseButton::RightButton => 2,
            MouseButton::LeftMove => 32,
            MouseButton::MiddleMove => 33,
            MouseButton::RightMove => 34,
            MouseButton::NoneMove => 35,
            MouseButton::ScrollUp => 64,
            MouseButton::ScrollDown => 65,
            MouseButton::Other => 99,
        }
    }
}

/// The encoding of mouse reports: SGR, or the legacy form, with the UTF-8
/// extension or without.
#[derive(Clone, Copy, Debug, PartialEq, Eq, Structural, Hash)]
pub enum MouseMode {
    Sgr,
    Normal(bool),
}

pub open spec fn mouse_mode_of(mode: u32) -> MouseMode {
    if bits_contain(mode, SGR_MOUSE) {
        MouseMode::Sgr
    } else if bits_contain(mode, UTF8_MOUSE) {
        MouseMode::Normal(true)
    } else {
        MouseMode::Normal(false)
    }
}

impl MouseMode {
    /// The encoding that the terminal modes ask for: SGR wins over UTF-8.
    pub fn from_mode(mode: TermMode) -> (r: MouseMode)
        ensures
            r == mouse_mode_of(mode.bits),
    {
        if mode.contains(TermMode::from_bits(SGR_MOUSE)) {
            MouseMode::Sgr
        } else if mode.contains(TermMode::from_bits(UTF8_MOUSE)) {
            MouseMode::Normal(true)
        } else {
            MouseMode::Normal(false)
        }
    }
}

/// The ASCII decimal digits of `n`.
pub open spec fn decimal(n: nat) -> Seq<u8>
    decreases n,
{
    if n < 10 {
        seq![(48 + n) as u8]
    } else {
        decimal(n / 10).push((48 + n % 10) as u8)
    }
}

/// The ASCII decimal form of `n`, with a minus sign when negative.
pub open spec fn signed_decimal(n: int) -> Seq<u8> {
    if n < 0 {
        seq![45u8] + decimal((-n) as nat)
    } else {
        decimal(n as nat)
    }
}

/// The button number bias of the pressed modifiers: 4 for shift, 8 for alt,
/// 16 for the command key.
pub open spec fn modifier_bias(modifiers: u32, command: u32) -> int {
    (if bits_contain(modifiers, SHIFT) {
        4int
    } else {
        0
    }) + (if bits_contain(modifiers, ALT) {
        8int
    } else {
        0
    }) + (if bits_contain(modifiers, command) {
        16int
    } else {
        0
    })
}

/// `ESC [ < button ; column+1 ; line+1 M` on a press, `m` on a release.
pub open spec fn sgr_report(point: GridPoint, button: int, pressed: bool) -> Seq<u8> {
    seq![0x1bu8, 0x5bu8, 0x3cu8] + decimal(button as nat) + seq![0x3bu8] + decimal(
        (point.column + 1) as nat,
    ) + seq![0x3bu8] + signed_decimal(point.line + 1) + seq![
        if pressed {
            0x4du8
        } else {
            0x6du8
        },
    ]
}

/// A coordinate of the legacy form: one byte `33 + pos`, or in the UTF-8
/// extension from 95 on, the two bytes `0xC0 + (33 + pos) / 64` and
/// `0x80 + (33 + pos) % 64`.
pub open spec fn legacy_position(pos: int, utf8: bool) -> Seq<u8> {
    if utf8 && pos >= 95 {
        seq![(0xc0 + (33 + pos) / 64) as u8, (0x80 + (33 + pos) % 64) as u8]
    } else {
        seq![(33 + pos) as u8]
    }
}

/// The legacy report `ESC [ M (32 + button) column line`, or nothing when
/// the point cannot be encoded: a line or column at or past 2015 with the
/// UTF-8 extension, or 223 without; or a line in the scrollback.
pub open spec fn legacy_report(point: GridPoint, button: int, utf8: bool) -> Option<Seq<u8>> {
    let max_point = if utf8 {
        2015int
    } else {
        223int
    };
    if point.line < 0 || point.line >= max_point || point.column >= max_point {
        None
    } else {
        Some(
            seq![0x1bu8, 0x5bu8, 0x4du8, (32 + button) as u8] + legacy_position(
                point.column as int,
                utf8,
            ) + legacy_position(point.line as int, utf8),
        )
    }
}

/// The report of a mouse event in the given encoding; in the legacy form a
/// release is reported as button 3.
pub open spec fn mouse_report_bytes(
    mode: MouseMode,
    button: MouseButton,
    modifiers: u32,
    command: u32,
    point: GridPoint,
    pressed: bool,
) -> Option<Seq<u8>> {
    let bias = modifier_bias(modifiers, command);
    match mode {
        MouseMode::Sgr => Some(sgr_report(point, button_code(button) + bias, pressed)),
        MouseMode::Normal(utf8) => legacy_report(
            point,
            if pressed {
                button_code(button) + bias
            } else {
                3 + bias
            },
            utf8,
        ),
    }
}

/// Appends the decimal digits of `n`.
fn push_decimal(buf: &mut Vec<u8>, n: u128)
    ensures
        final(buf)@ == old(buf)@ + decimal(n as nat),
    decreases n,
{
    if n >= 10 {
        push_decimal(buf, n / 10);
    }
    let digit = (48 + n % 10) as u8;
    buf.push(digit);
    assert(final(buf)@ =~= old(buf)@ + decimal(n as nat));
}

/// Appends the decimal form of `n`, with a minus sign when negative.
fn push_signed_decimal(buf: &mut Vec<u8>, n: i64)
    ensures
        final(buf)@ == old(buf)@ + signed_decimal(n as int),
{
    if n < 0 {
        buf.push(45);
        let magnitude: u128 = (0i128 - n as i128) as u128;
        push_decimal(buf, magnitude);
        assert(final(buf)@ =~= old(buf)@ + signed_decimal(n as int));
    } else {
        push_decimal(buf, n as u128);
    }
}

/// The SGR report of a mouse event.
pub fn sgr_mouse_report(point: GridPoint, button: u8, pressed: bool) -> (r: Vec<u8>)
    ensures
        r@ == sgr_report(point, button as int, pressed),
{
    let mut msg: Vec<u8> = Vec::new();
    msg.push(0x1b);
    msg.push(0x5b);
    msg.push(0x3c);
    push_decimal(&mut msg, button as u128);
    msg.push(0x3b);
    push_decimal(&mut msg, point.column as u128 + 1);
    msg.push(0x3b);
    push_signed_decimal(&mut msg, point.line as i64 + 1);
    if pressed {
        msg.push(0x4d);
    } else {
        msg.push(0x6d);
    }
    assert(msg@ =~= sgr_report(point, button as int, pressed));
    msg
}

fn push_legacy_position(buf: &mut Vec<u8>, pos: u16, utf8: bool)
    requires
        (if utf8 {
            pos < 2015
        } else {
            pos < 223
        }),
    ensures
        final(buf)@ == old(buf)@ + legacy_position(pos as int, utf8),
{
    if utf8 && pos >= 95 {
        let p = 33 + pos;
        buf.push((0xc0 + p / 64) as u8);
        buf.push((0x80 + p % 64) as u8);
    } else {
        buf.push((33 + pos) as u8);
    }
    assert(final(buf)@ =~= old(buf)@ + legacy_position(pos as int, utf8));
}

/// The legacy report of a mouse event, or `None` when the point cannot be
/// encoded in it.
pub fn normal_mouse_report(point: GridPoint, button: u8, is_utf8: bool) -> (r: Option<Vec<u8>>)
    requires
        button <= 223,
    ensures
        match r {
            Some(v) => legacy_report(point, button as int, is_utf8) == Some(v@),
            None => legacy_report(point, button as int, is_utf8) is None,
        },
{
    let max_point: u16 = if is_utf8 {
        2015
    } else {
        223
    };
    if point.line < 0 || point.line >= max_point as i32 || point.column >= max_point as usize {
        return None;
    }
    let mut msg: Vec<u8> = Vec::new();
    msg.push(0x1b);
    msg.push(0x5b);
    msg.push(0x4d);
    msg.push(32 + button);
    push_legacy_position(&mut msg, point.column as u16, is_utf8);
    push_legacy_position(&mut msg, point.line as u16, is_utf8);
    assert(msg@ =~= legacy_report(point, button as int, is_utf8)->Some_0);
    Some(msg)
}

/// The button number bias of the pressed modifiers.
pub fn modifiers_bias(modifiers: Modifiers, command: Modifiers) -> (r: u8)
    ensures
        r == modifier_bias(modifiers.bits, command.bits),
        r <= 28,
{
    let mut mods: u8 = 0;
    if modifiers.contains(Modifiers::from_bits(SHIFT)) {
        mods = mods + 4;
    }
    if modifiers.contains(Modifiers::from_bits(ALT)) {
        mods = mods + 8;
    }
    if modifiers.contains(command) {
        mods = mods + 16;
    }
    mods
}

/// The report of a mouse event in the given encoding, or `None` when the
/// legacy form cannot encode the point.
pub fn mouse_report(
    mode: MouseMode,
    button: MouseButton,
    modifiers: Modifiers,
    command: Modifiers,
    point: GridPoint,
    pressed: bool,
) -> (r: Option<Vec<u8>>)
    ensures
        match r {
            Some(v) => mouse_report_bytes(mode, button, modifiers.bits, command.bits, point, pressed)
                == Some(v@),
            None => mouse_report_bytes(
                mode,
                button,
                modifiers.bits,
                command.bits,
                point,
                pressed,
            ) is None,
        },
{
    let mods = modifiers_bias(modifiers, command);
    match mode {
        MouseMode::Sgr => Some(sgr_mouse_report(point, button.code() + mods, pressed)),
        MouseMode::Normal(is_utf8) => {
            if pressed {
                normal_mouse_report(point, button.code() + mods, is_utf8)
            } else {
                normal_mouse_report(point, 3 + mods, is_utf8)
            }
        },
    }
}

} // verus!
