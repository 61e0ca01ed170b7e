//! Key events of a drawing area, as plain values.

use vstd::prelude::*;

verus! {

/// The bit of the control key in a set of modifiers.
pub const MODIFIER_CTRL: u8 = 1;

/// The bit of the alt key.
pub const MODIFIER_ALT: u8 = 2;

/// The bit of the shift key.
pub const MODIFIER_SHIFT: u8 = 4;

/// The bit of the super key.
pub const MODIFIER_SUPER: u8 = 8;

/// All four modifier bits.
pub const MODIFIER_ALL: u8 = 15;

/// A set of modifier keys: control, alt, shift and super, one bit each.
#[derive(Clone, Copy, Debug, PartialEq, Eq, Structural)]
pub struct Modifiers {
    pub bits: u8,
}

impl Modifiers {
    /// Only the four known bits are set.
    pub open spec fn wf(self) -> bool {
        self.bits <= MODIFIER_ALL
    }

    /// The set with exactly these bits, unless a bit is among them that
    /// stands for no modifier.
    pub fn from_bits(bits: u8) -> (modifiers: Option<Modifiers>)
        ensures
            bits <= MODIFIER_ALL ==> modifiers == Some(Modifiers { bits }),
            bits > MODIFIER_ALL ==> modifiers is None,
    {
        if bits <= MODIFIER_ALL {
            Some(Modifiers { bits })
        } else {
            None
        }
    }

    /// The bits of the set.
    pub fn bits(&self) -> (bits: u8)
        ensures
            bits == self.bits,
    {
        self.bits
    }

    /// Whether no modifier is in the set.
    pub fn is_empty(&self) -> (empty: bool)
        ensures
            empty == (self.bits == 0),
    {
        self.bits == 0
    }
}

/// A key that was pressed or released over an area.
#[derive(Clone, Copy, Debug, PartialEq, Eq, Structural)]
pub struct AreaKeyEvent {
    /// The character of the key, or 0 for a key without one.
    pub key: u8,
    /// The toolkit's number of a key without a character, or 0.
    pub ext_key: u32,
    /// The modifier that the key itself is, if it is one.
    pub modifier: Modifiers,
    /// The modifiers held while the key went down or up.
    pub modifiers: Modifiers,
    /// Whether the key went up.
    pub up: bool,
}

impl AreaKeyEvent {
    /// The event that the toolkit's fields describe. A modifier byte with a
    /// bit that stands for no modifier is a fault of the toolkit, so the
    /// contract leaves it out.
    pub fn from_ui_area_key_event(key: u8, ext_key: u32, modifier: u8, modifiers: u8, up: i32) -> (event:
        AreaKeyEvent)
        requires
            modifier <= MODIFIER_ALL,
            modifiers <= MODIFIER_ALL,
        ensures
            event == (AreaKeyEvent {
                key,
                ext_key,
                modifier: Modifiers { bits: modifier },
                modifiers: Modifiers { bits: modifiers },
                up: up != 0,
            }),
            event.modifier.wf(),
            event.modifiers.wf(),
    {
        AreaKeyEvent {
            key,
            ext_key,
            modifier: Modifiers { bits: modifier },
            modifiers: Modifiers { bits: modifiers },
            up: up != 0,
        }
    }
}

} // verus!
