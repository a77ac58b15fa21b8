//! The read-only instruction store.

use crate::emulator::error::{Error, ErrorView};
use vstd::prelude::*;
use vstd::string::StringExecFns;

verus! {

/// The instruction store of `ROM_SIZE` words, filled once from a program
/// image and never written again.
pub struct Rom(Box<[u16; 32768]>);

impl View for Rom {
    type V = Seq<u16>;

    closed spec fn view(&self) -> Seq<u16> {
        self.0@
    }
}

/// The words of a program image: byte pairs read big-endian, then zeros up
/// to the size of the ROM.
pub open spec fn image_words(bytes: Seq<u8>) -> Seq<u16> {
    Seq::new(
        32768,
        |i: int|
            if 2 * i + 1 < bytes.len() {
                (bytes[2 * i] * 256 + bytes[2 * i + 1]) as u16
            } else {
                0u16
            },
    )
}

/// What loading a program image gives: the words of the ROM, or the reason
/// why the image is refused. An image longer than two bytes for each word of
/// the ROM is too large; one with an odd number of bytes is refused next.
pub open spec fn load_image(bytes: Seq<u8>) -> Result<Seq<u16>, ErrorView> {
    if bytes.len() > 2 * 32768 {
        Err(ErrorView::RomError("ROM too large"@))
    } else if bytes.len() % 2 != 0 {
        Err(ErrorView::RomError("ROM size must be a multiple of 2"@))
    } else {
        Ok(image_words(bytes))
    }
}

impl Rom {
    /// The number of words.
    pub const ROM_SIZE: usize = 32768;

    /// Every ROM holds exactly `ROM_SIZE` words.
    pub proof fn lemma_len(&self)
        ensures
            self@.len() == Self::ROM_SIZE,
    {
    }

    /// Loads a program image. The image must have an even number of bytes
    /// and at most two for each word of the ROM; its byte pairs become the
    /// words from address 0 on, and the words after them are zero.
    pub fn from_bytes(bytes: &[u8]) -> (r: Result<Self, Error>)
        ensures
            match r {
                Ok(rom) => load_image(bytes@) == Ok::<Seq<u16>, ErrorView>(rom@),
                Err(e) => load_image(bytes@) == Err::<Seq<u16>, ErrorView>(e@),
            },
    {
        if bytes.len() > Self::ROM_SIZE * 2 {
            return Err(Error::RomError(String::from_str("ROM too large")));
        }
        if bytes.len() % 2 != 0 {
            return Err(Error::RomError(String::from_str("ROM size must be a multiple of 2")));
        }
        let mut data: Box<[u16; 32768]> = Box::new([0; 32768]);
        let words = bytes.len() / 2;
        let mut i: usize = 0;
        while i < words
            invariant
                words * 2 == bytes@.len(),
                words <= 32768,
                i <= words,
                forall|j: int| 0 <= j < i ==> data@[j] == image_words(bytes@)[j],
                forall|j: int| i <= j < 32768 ==> data@[j] == 0,
            decreases words - i,
        {
            let high: u16 = bytes[i * 2] as u16;
            let low: u16 = bytes[i * 2 + 1] as u16;
            data[i] = high * 256 + low;
            i = i + 1;
        }
        assert(data@ =~= image_words(bytes@));
        Ok(Rom(data))
    }

    /// Reads the word at `address`; fails outside the ROM.
    pub fn fetch(&self, address: usize) -> (r: Result<u16, Error>)
        ensures
            address < Self::ROM_SIZE ==> r == Ok::<u16, Error>(self@[address as int]),
            address >= Self::ROM_SIZE ==> r == Err::<u16, Error>(Error::InvalidROMAddress(address)),
    {
        if address >= Self::ROM_SIZE {
            return Err(Error::InvalidROMAddress(address));
        }
        Ok(self.0[address])
    }
}

} // verus!
