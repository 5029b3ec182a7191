use vstd::prelude::*;

verus! {

/// The three 8-bit data registers of the 6502.
#[derive(Clone, Copy, Debug, PartialEq, Eq, Structural)]
pub struct Registers {
    pub a: u8,
    pub x: u8,
    pub y: u8,
}

impl Default for Registers {
    fn default() -> (r: Self)
        ensures
            r == (Registers { a: 0, x: 0, y: 0 }),
    {
        Registers { a: 0, x: 0, y: 0 }
    }
}

impl Registers {
    pub fn reset(&mut self)
        ensures
            *final(self) == (Registers { a: 0, x: 0, y: 0 }),
    {
        self.a = 0;
        self.x = 0;
        self.y = 0;
    }
}

} // verus!
