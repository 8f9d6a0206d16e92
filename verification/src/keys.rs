//! Key events: the normalized input model shared by both terminal styles,
//! and the decoders that turn raw platform input into events.

use vstd::prelude::*;

verus! {

/// A combinable set of key modifiers (shift, alt, ctrl).
#[derive(Clone, Copy, PartialEq, Eq, Structural, Debug)]
pub struct KeyMod {
    pub bits: u8,
}

pub const KEY_MOD_SHIFT_BIT: u8 = 1;
pub const KEY_MOD_ALT_BIT: u8 = 2;
pub const KEY_MOD_CTRL_BIT: u8 = 4;

impl KeyMod {
    /// The empty modifier set.
    pub fn none() -> (m: KeyMod)
        ensures
            m.bits == 0,
    {
        KeyMod { bits: 0 }
    }

    pub fn shift() -> (m: KeyMod)
        ensures
            m.bits == KEY_MOD_SHIFT_BIT,
    {
        KeyMod { bits: KEY_MOD_SHIFT_BIT }
    }

    pub fn alt() -> (m: KeyMod)
        ensures
            m.bits == KEY_MOD_ALT_BIT,
    {
        KeyMod { bits: KEY_MOD_ALT_BIT }
    }

    pub fn ctrl() -> (m: KeyMod)
        ensures
            m.bits == KEY_MOD_CTRL_BIT,
    {
        KeyMod { bits: KEY_MOD_CTRL_BIT }
    }

    /// The union of two modifier sets.
    pub fn union(self, other: KeyMod) -> (m: KeyMod)
        ensures
            m.bits == self.bits | other.bits,
    {
        KeyMod { bits: self.bits | other.bits }
    }

    /// Whether every modifier of `other` is present in `self`.
    pub fn contains(self, other: KeyMod) -> (r: bool)
        ensures
            r == (self.bits & other.bits == other.bits),
    {
        self.bits & other.bits == other.bits
    }

    pub fn is_empty(self) -> (r: bool)
        ensures
            r == (self.bits == 0),
    {
        self.bits == 0
    }
}

/// A decoded key: either a recognized Unicode character or unrecognized input.
#[derive(Clone, Copy, PartialEq, Eq, Structural, Debug)]
pub enum Key {
    Unknown,
    Unicode(char),
}

/// An input event delivered by a terminal's event source.
#[derive(Clone, Copy, PartialEq, Eq, Structural, Debug)]
pub enum Event {
    Key(Key, KeyMod),
}

/// What a raw byte-stream read decodes to: a single ASCII byte is a Unicode
/// key with no modifiers; an empty read, a multi-byte read, or a non-ASCII
/// byte is an unrecognized key.
pub open spec fn spec_decode_bytes(bytes: Seq<u8>) -> Event {
    if bytes.len() == 1 && bytes[0] < 128 {
        Event::Key(Key::Unicode(bytes[0] as char), KeyMod { bits: 0 })
    } else {
        Event::Key(Key::Unknown, KeyMod { bits: 0 })
    }
}

/// Decode the bytes returned by one raw read of the input stream.
pub fn decode_bytes(bytes: &[u8]) -> (e: Event)
    ensures
        e == spec_decode_bytes(bytes@),
{
    if bytes.len() == 1 && bytes[0] < 128 {
        Event::Key(Key::Unicode(bytes[0] as char), KeyMod::none())
    } else {
        Event::Key(Key::Unknown, KeyMod::none())
    }
}

} // verus!
