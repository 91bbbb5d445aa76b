//! Storage media.

use vstd::prelude::*;

verus! {

/// The medium that holds a title.
#[derive(Copy, Clone, Debug, PartialEq, Eq, Structural)]
pub enum FsMediaType {
    /// The console's internal storage.
    Nand,
    /// The SD card.
    Sd,
    /// The game card in the slot.
    GameCard,
}

impl FsMediaType {
    /// The number by which the system knows the medium.
    pub open spec fn spec_code(self) -> u32 {
        match self {
            FsMediaType::Nand => 0,
            FsMediaType::Sd => 1,
            FsMediaType::GameCard => 2,
        }
    }

    /// The number by which the system knows the medium.
    #[verifier::when_used_as_spec(spec_code)]
    pub fn code(self) -> (code: u32)
        ensures
            code == self.spec_code(),
    {
        match self {
            FsMediaType::Nand => 0,
            FsMediaType::Sd => 1,
            FsMediaType::GameCard => 2,
        }
    }
}

} // verus!
