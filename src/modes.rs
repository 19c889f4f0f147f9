//! Bit sets of terminal modes and keyboard modifiers.

use vstd::prelude::*;

verus! {

/// Cursor keys send application sequences.
pub const APP_CURSOR: u32 = 0x2;

/// Mouse reports use the SGR encoding.
pub const SGR_MOUSE: u32 = 0x20;

/// The alternate screen is active.
pub const ALT_SCREEN: u32 = 0x1000;

/// Mouse reports use the UTF-8 extended encoding.
pub const UTF8_MOUSE: u32 = 0x4000;

/// Scrolling in the alternate screen is sent to the program as cursor keys.
pub const ALTERNATE_SCROLL: u32 = 0x8000;

/// The "shift" key.
pub const SHIFT: u32 = 0x4;

/// The "control" key.
pub const CTRL: u32 = 0x20;

/// The "alt" key.
pub const ALT: u32 = 0x100;

/// The "logo" key: "command" on macOS, "super" or "windows" elsewhere.
pub const LOGO: u32 = 0x800;

/// Whether every bit of `b` is set in `a`.
pub open spec fn bits_contain(a: u32, b: u32) -> bool {
    a & b == b
}

/// Whether `a` and `b` share a bit.
pub open spec fn bits_intersect(a: u32, b: u32) -> bool {
    a & b != 0
}

/// The mode flags of the terminal state, one bit per mode; the bit positions
/// are those of `alacritty_terminal::term::TermMode`.
#[derive(Clone, Copy, Debug, PartialEq, Eq, Structural, Hash)]
pub struct TermMode {
    pub bits: u32,
}

impl TermMode {
    pub fn empty() -> (r: TermMode)
        ensures
            r.bits == 0,
    {
        TermMode { bits: 0 }
    }

    pub fn from_bits(bits: u32) -> (r: TermMode)
        ensures
            r.bits == bits,
    {
        TermMode { bits }
    }

    /// Whether every mode of `other` is set in `self`.
    pub fn contains(self, other: TermMode) -> (r: bool)
        ensures
            r == bits_contain(self.bits, other.bits),
    {
        self.bits & other.bits == other.bits
    }

    /// Whether `self` and `other` share a mode.
    pub fn intersects(self, other: TermMode) -> (r: bool)
        ensures
            r == bits_intersect(self.bits, other.bits),
    {
        self.bits & other.bits != 0
    }

    /// The modes set in either.
    pub fn union(self, other: TermMode) -> (r: TermMode)
        ensures
            r.bits == self.bits | other.bits,
    {
        TermMode { bits: self.bits | other.bits }
    }
}

/// Pressed keyboard modifiers, one bit per key; the bit positions are those
/// of `iced_core::keyboard::Modifiers`.
#[derive(Clone, Copy, Debug, PartialEq, Eq, Structural, Hash)]
pub struct Modifiers {
    pub bits: u32,
}

impl Modifiers {
    pub fn empty() -> (r: Modifiers)
        ensures
            r.bits == 0,
    {
        Modifiers { bits: 0 }
    }

    pub fn from_bits(bits: u32) -> (r: Modifiers)
        ensures
            r.bits == bits,
    {
        Modifiers { bits }
    }

    pub fn is_empty(self) -> (r: bool)
        ensures
            r == (self.bits == 0),
    {
        self.bits == 0
    }

    /// Whether every key of `other` is pressed in `self`.
    pub fn contains(self, other: Modifiers) -> (r: bool)
        ensures
            r == bits_contain(self.bits, other.bits),
    {
        self.bits & other.bits == other.bits
    }

    /// The keys pressed in either.
    pub fn union(self, other: Modifiers) -> (r: Modifiers)
        ensures
            r.bits == self.bits | other.bits,
    {
        Modifiers { bits: self.bits | other.bits }
    }
}

/// Relies on `iced_core::keyboard::Modifiers::COMMAND`: the main hotkey
/// modifier of the platform, which is LOGO on macOS and CTRL elsewhere.
#[verifier::external_body]
pub(crate) fn command_modifier() -> (r: Modifiers)
    ensures
        r.bits == CTRL || r.bits == LOGO,
{
    Modifiers { bits: iced_core::keyboard::Modifiers::COMMAND.bits() }
}

} // verus!
