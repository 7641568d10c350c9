//! The state of a controller: one bit per button.

use vstd::prelude::*;

verus! {

/// The mask of the `A` button.
pub const A: u8 = 0x80;

/// The mask of the `B` button.
pub const B: u8 = 0x40;

/// The mask of the `Select` button.
pub const SELECT: u8 = 0x20;

/// The mask of the `Start` button.
pub const START: u8 = 0x10;

/// The mask of the `Up` direction.
pub const UP: u8 = 0x08;

/// The mask of the `Down` direction.
pub const DOWN: u8 = 0x04;

/// The mask of the `Left` direction.
pub const LEFT: u8 = 0x02;

/// The mask of the `Right` direction.
pub const RIGHT: u8 = 0x01;

/// A set of buttons that are held down. Every bit of the mask names a button,
/// so every mask is a valid set.
#[derive(Clone, Copy, Debug, PartialEq, Eq, Hash, Structural)]
pub struct ControllerInput {
    bits: u8,
}

impl ControllerInput {
    /// The mask of the set.
    pub closed spec fn view(&self) -> u8 {
        self.bits
    }

    /// The set with no button.
    pub fn empty() -> (input: ControllerInput)
        ensures
            input@ == 0,
    {
        ControllerInput { bits: 0 }
    }

    /// The set with every button.
    pub fn all() -> (input: ControllerInput)
        ensures
            input@ == 0xFF,
    {
        ControllerInput { bits: 0xFF }
    }

    /// The set that holds the `A` button alone.
    pub fn a() -> (input: ControllerInput)
        ensures
            input@ == A,
    {
        ControllerInput { bits: A }
    }

    /// The set that holds the `B` button alone.
    pub fn b() -> (input: ControllerInput)
        ensures
            input@ == B,
    {
        ControllerInput { bits: B }
    }

    /// The set that holds the `Select` button alone.
    pub fn select() -> (input: ControllerInput)
        ensures
            input@ == SELECT,
    {
        ControllerInput { bits: SELECT }
    }

    /// The set that holds the `Start` button alone.
    pub fn start() -> (input: ControllerInput)
        ensures
            input@ == START,
    {
        ControllerInput { bits: START }
    }

    /// The set that holds the `Up` direction alone.
    pub fn up() -> (input: ControllerInput)
        ensures
            input@ == UP,
    {
        ControllerInput { bits: UP }
    }

    /// The set that holds the `Down` direction alone.
    pub fn down() -> (input: ControllerInput)
        ensures
            input@ == DOWN,
    {
        ControllerInput { bits: DOWN }
    }

    /// The set that holds the `Left` direction alone.
    pub fn left() -> (input: ControllerInput)
        ensures
            input@ == LEFT,
    {
        ControllerInput { bits: LEFT }
    }

    /// The set that holds the `Right` direction alone.
    pub fn right() -> (input: ControllerInput)
        ensures
            input@ == RIGHT,
    {
        ControllerInput { bits: RIGHT }
    }

    /// The set whose mask is `bits`.
    pub fn from_bits_truncate(bits: u8) -> (input: ControllerInput)
        ensures
            input@ == bits,
    {
        ControllerInput { bits }
    }

    /// The mask of the set.
    pub fn bits(&self) -> (bits: u8)
        ensures
            bits == self@,
    {
        self.bits
    }

    /// Whether no button is in the set.
    pub fn is_empty(&self) -> (empty: bool)
        ensures
            empty == (self@ == 0),
    {
        self.bits == 0
    }

    /// Whether every button of `other` is in the set.
    pub fn contains(&self, other: ControllerInput) -> (contained: bool)
        ensures
            contained == (self@ & other@ == other@),
    {
        self.bits & other.bits == other.bits
    }

    /// Adds the buttons of `other` to the set.
    pub fn insert(&mut self, other: ControllerInput)
        ensures
            final(self)@ == old(self)@ | other@,
    {
        self.bits = self.bits | other.bits;
    }

    /// Takes the buttons of `other` out of the set.
    pub fn remove(&mut self, other: ControllerInput)
        ensures
            final(self)@ == old(self)@ & !other@,
    {
        self.bits = self.bits & !other.bits;
    }
}

impl Default for ControllerInput {
    fn default() -> (input: ControllerInput)
        ensures
            input@ == 0,
    {
        ControllerInput { bits: 0 }
    }
}

/// Pressing buttons adds exactly them: afterwards each of them is held, and
/// every other button is as it was.
pub proof fn lemma_insert_sets_exactly(bits: u8, pressed: u8)
    ensures
        (bits | pressed) & pressed == pressed,
        (bits | pressed) & !pressed == bits & !pressed,
{
    assert((bits | pressed) & pressed == pressed) by (bit_vector);
    assert((bits | pressed) & !pressed == bits & !pressed) by (bit_vector);
}

/// Letting buttons go clears exactly them: afterwards none of them is held,
/// and every other button is as it was.
pub proof fn lemma_remove_clears_exactly(bits: u8, released: u8)
    ensures
        (bits & !released) & released == 0,
        (bits & !released) & !released == bits & !released,
        (bits & !released) | (bits & released) == bits,
{
    assert((bits & !released) & released == 0) by (bit_vector);
    assert((bits & !released) & !released == bits & !released) by (bit_vector);
    assert((bits & !released) | (bits & released) == bits) by (bit_vector);
}

/// Pressing buttons that were not held and letting them go again leaves the
/// set as it was.
pub proof fn lemma_insert_then_remove(bits: u8, button: u8)
    requires
        bits & button == 0,
    ensures
        (bits | button) & !button == bits,
{
    assert((bits | button) & !button == bits) by (bit_vector)
        requires
            bits & button == 0,
    ;
}

} // verus!
