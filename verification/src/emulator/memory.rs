//! The data memory: general cells, the screen bitmap and the keyboard
//! register in one address space.

use crate::emulator::error::Error;
use vstd::prelude::*;

verus! {

/// The unified read/write store of `TOTAL_SIZE` 16-bit cells.
///
/// Cells `0x0000..0x4000` are general data, `0x4000..0x6000` are the screen
/// bitmap (one cell is 16 pixels of a row) and `0x6000` is the keyboard
/// register.
pub struct Memory(pub Box<[u16; 0x6001]>);

impl View for Memory {
    type V = Seq<u16>;

    open spec fn view(&self) -> Seq<u16> {
        self.0@
    }
}

/// Whether `address` lies in the screen bitmap.
pub open spec fn in_screen(address: int) -> bool {
    0x4000 <= address < 0x6000
}

impl Memory {
    /// The number of cells.
    pub const TOTAL_SIZE: usize = 0x6001;

    /// The address of the first cell of the screen bitmap.
    pub const SCREEN_MEMORY_MAP_OFFSET: usize = 0x4000;

    /// The number of cells of the screen bitmap.
    pub const SCREEN_MEMORY_MAP_SIZE: usize = 0x2000;

    /// The address of the keyboard register.
    pub const KEYBOARD_REG_OFFSET: usize = 0x6000;

    /// A memory whose cells all hold zero.
    pub fn new() -> (r: Self)
        ensures
            r@ == Seq::new(0x6001, |i: int| 0u16),
    {
        let r = Self(Box::new([0; 0x6001]));
        assert(r@ =~= Seq::new(0x6001, |i: int| 0u16));
        r
    }

    /// Reads the cell at `address`; fails outside the address space.
    pub fn fetch(&self, address: usize) -> (r: Result<u16, Error>)
        ensures
            self@.len() == Self::TOTAL_SIZE,
            address < Self::TOTAL_SIZE ==> r == Ok::<u16, Error>(self@[address as int]),
            address >= Self::TOTAL_SIZE ==> r == Err::<u16, Error>(
                Error::InvalidMemoryAddress(address),
            ),
    {
        if address >= Self::TOTAL_SIZE {
            return Err(Error::InvalidMemoryAddress(address));
        }
        Ok(self.0[address])
    }

    /// Writes `value` to the cell at `address` and leaves every other cell
    /// as it was; fails outside the address space, and then changes nothing.
    pub fn store(&mut self, address: usize, value: u16) -> (r: Result<(), Error>)
        ensures
            address < Self::TOTAL_SIZE ==> r == Ok::<(), Error>(()) && final(self)@ == old(
                self,
            )@.update(address as int, value),
            address >= Self::TOTAL_SIZE ==> r == Err::<(), Error>(
                Error::InvalidMemoryAddress(address),
            ) && final(self)@ == old(self)@,
    {
        if address >= Self::TOTAL_SIZE {
            return Err(Error::InvalidMemoryAddress(address));
        }
        self.0[address] = value;
        Ok(())
    }

    /// Writes the code of the pressed key, or 0 for none, to the keyboard
    /// register and leaves every other cell as it was.
    pub fn set_keyboard_reg(&mut self, keycode: u16)
        ensures
            final(self)@ == old(self)@.update(Self::KEYBOARD_REG_OFFSET as int, keycode),
    {
        self.0[Self::KEYBOARD_REG_OFFSET] = keycode;
    }

    /// Whether `address` lies in the screen bitmap; the keyboard register
    /// does not.
    pub fn is_screen_address(address: usize) -> (r: bool)
        ensures
            r == in_screen(address as int),
    {
        address >= Self::SCREEN_MEMORY_MAP_OFFSET && address < (Self::SCREEN_MEMORY_MAP_OFFSET
            + Self::SCREEN_MEMORY_MAP_SIZE)
    }
}

} // verus!
