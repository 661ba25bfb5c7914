//! A program image, as read from storage by the host.
use vstd::prelude::*;
use crate::error::Chip8Error;

verus! {

/// The largest program that fits in memory above `0x200`.
pub const MAX_ROM_SIZE: usize = 3584;

/// `bytes` followed by zeros up to the size of the program area.
pub open spec fn padded(bytes: Seq<u8>) -> Seq<u8> {
    bytes + Seq::new((3584 - bytes.len()) as nat, |i: int| 0u8)
}

/// A program image padded with zeros to the whole program area.
pub struct ROM {
    pub data: [u8; 3584],
}

impl ROM {
    /// The image of `bytes`, padded with zeros; `ImageTooLarge` where they do
    /// not fit in the program area.
    pub fn from_bytes(bytes: &[u8]) -> (r: Result<ROM, Chip8Error>)
        ensures
            bytes@.len() > 3584 ==> r == Err::<ROM, Chip8Error>(Chip8Error::ImageTooLarge),
            bytes@.len() <= 3584 ==> (r matches Ok(rom) && rom.data@ == padded(bytes@)),
    {
        if bytes.len() > MAX_ROM_SIZE {
            return Err(Chip8Error::ImageTooLarge);
        }
        let mut data = [0u8; 3584];
        let mut i: usize = 0;
        while i < bytes.len()
            invariant
                i <= bytes@.len() <= 3584,
                forall|j: int| 0 <= j < i ==> data@[j] == bytes@[j],
                forall|j: int| i <= j < 3584 ==> data@[j] == 0u8,
            decreases bytes@.len() - i,
        {
            data[i] = bytes[i];
            i = i + 1;
        }
        assert(data@ =~= padded(bytes@));
        Ok(ROM { data })
    }
}

} // verus!
