//! The screen: a frame of 512 by 256 pixels, four bytes each, into which
//! the words of the screen bitmap are drawn.

use crate::emulator::error::Error;
use crate::emulator::memory::in_screen;
use crate::instruction::bit_is_set;
use vstd::prelude::*;

verus! {

/// The frame that is shown: for each pixel, row by row, the bytes red,
/// green, blue and alpha.
pub struct Screen {
    frame: Box<[u8; 524288]>,
}

impl View for Screen {
    type V = Seq<u8>;

    closed spec fn view(&self) -> Seq<u8> {
        self.frame@
    }
}

/// Byte `offset` of the 64 bytes that a word of the bitmap is drawn as: bit
/// `i` of the word is pixel `i` from the left, a set bit is white and a
/// clear bit is black, and every pixel is opaque.
pub open spec fn pixel_byte(value: u16, offset: int) -> u8 {
    if offset % 4 == 3 {
        0xFFu8
    } else if bit_is_set(value, offset / 4) {
        0xFFu8
    } else {
        0x00u8
    }
}

/// The index in the frame of the first byte drawn for the bitmap word at
/// `address`.
pub open spec fn frame_offset(address: int) -> int {
    (address - 0x4000) * 64
}

/// The frame after the bitmap word at `address` has been drawn with
/// `value`: its 64 bytes are replaced and all others stay.
pub open spec fn draw_word(frame: Seq<u8>, address: int, value: u16) -> Seq<u8> {
    Seq::new(
        frame.len(),
        |p: int|
            if frame_offset(address) <= p < frame_offset(address) + 64 {
                pixel_byte(value, p - frame_offset(address))
            } else {
                frame[p]
            },
    )
}

impl Screen {
    /// The number of bytes of the frame.
    pub const FRAME_SIZE: usize = 524288;

    /// A screen whose frame is all zero.
    pub fn new() -> (r: Self)
        ensures
            r@ == Seq::new(Self::FRAME_SIZE as nat, |i: int| 0u8),
    {
        let r = Self { frame: Box::new([0; 524288]) };
        assert(r@ =~= Seq::new(Self::FRAME_SIZE as nat, |i: int| 0u8));
        r
    }

    /// Every frame has `FRAME_SIZE` bytes.
    pub proof fn lemma_len(&self)
        ensures
            self@.len() == Self::FRAME_SIZE,
    {
    }

    /// The frame, to be handed to whatever presents it.
    pub fn frame(&self) -> (r: &[u8; 524288])
        ensures
            r@ == self@,
    {
        &*self.frame
    }

    /// Draws the 16 pixels of the bitmap word at `address`, which holds
    /// `value`, and leaves the rest of the frame as it was. `address` must
    /// lie in the screen bitmap.
    pub fn write(&mut self, address: usize, value: u16) -> (r: Result<(), Error>)
        requires
            in_screen(address as int),
        ensures
            r == Ok::<(), Error>(()),
            final(self)@ == draw_word(old(self)@, address as int, value),
    {
        let frame_lower_bound = (address - 0x4000) * 16 * 4;
        let mut i: usize = 0;
        while i < 16
            invariant
                i <= 16,
                frame_lower_bound == frame_offset(address as int),
                0 <= frame_lower_bound <= 524288 - 64,
                self@.len() == 524288,
                forall|p: int|
                    0 <= p < 524288 ==> #[trigger] self@[p] == if frame_lower_bound <= p
                        < frame_lower_bound + 4 * i {
                        pixel_byte(value, p - frame_lower_bound)
                    } else {
                        old(self)@[p]
                    },
            decreases 16 - i,
        {
            let color: u8 = if value & (1u16 << i) != 0 {
                0xFF
            } else {
                0x00
            };
            assert((value & (1u16 << i) != 0) == ((value >> (i as u16)) & 1 != 0)) by (bit_vector)
                requires
                    i < 16,
            ;
            let at = frame_lower_bound + i * 4;
            self.frame[at] = color;
            self.frame[at + 1] = color;
            self.frame[at + 2] = color;
            self.frame[at + 3] = 0xFF;
            i = i + 1;
        }
        assert(self@ =~= draw_word(old(self)@, address as int, value));
        Ok(())
    }
}

} // verus!
