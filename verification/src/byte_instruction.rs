use vstd::prelude::*;

verus! {

/// ┌───┬───┬───┬───┬───┬───┬───┬───┐
/// │ 7 │ 6 │ 5 │ 4 │ 3 │ 2 │ 1 │ 0 │
/// └───┴───┴───┴───┴───┴───┴───┴───┘
///   └───┘   └───────┘   └───────┘
///     x         y           z
///           └───┘   |
///             p     q
///
/// The standard z80/SM83 octal-digit grouping of an opcode byte:
/// x = bits 7-6, y = bits 5-3, z = bits 2-0, p = bits 5-4, q = bit 3.
#[derive(Clone, Copy, Debug, PartialEq, Eq, Structural)]
pub struct ByteInstruction(pub u8);

impl ByteInstruction {
    /// The opcode's first octal digit (bits 7-6).
    pub fn x(&self) -> (r: u8)
        ensures
            r == self.0 / 64,
    {
        self.0 / 64
    }

    /// The opcode's second octal digit (bits 5-3).
    pub fn y(&self) -> (r: u8)
        ensures
            r == (self.0 / 8) % 8,
    {
        (self.0 / 8) % 8
    }

    /// The opcode's third octal digit (bits 2-0).
    pub fn z(&self) -> (r: u8)
        ensures
            r == self.0 % 8,
    {
        self.0 % 8
    }

    /// The top two bits of y (bits 5-4).
    pub fn p(&self) -> (r: u8)
        ensures
            r == (self.0 / 16) % 4,
    {
        (self.0 / 16) % 4
    }

    /// The low bit of y (bit 3).
    pub fn q(&self) -> (r: bool)
        ensures
            r == ((self.0 / 8) % 2 == 1),
    {
        (self.0 / 8) % 2 == 1
    }

    /// The condition-code field of a conditional opcode (bits 4-3).
    pub fn cond(&self) -> (r: u8)
        ensures
            r == (self.0 / 8) % 4,
    {
        (self.0 / 8) % 4
    }
}

} // verus!
