//! Why a save could not be decoded.
use vstd::prelude::*;

verus! {

/// What was found wrong in bytes that were read in full.
#[derive(Debug, Clone, Copy, PartialEq, Eq, Structural)]
pub enum Corruption {
    /// The checksum computed over a block differs from the one in its sector's footer.
    Checksum { expected: u16, actual: u16 },
    /// A sector holds another logical section than its position in the slot calls for.
    SectionId { expected: u16, actual: u16 },
    /// A slot's first sector names a logical section outside the slot.
    InvalidSectionId(u16),
    /// The gender byte is neither 0 nor 1.
    Gender(u8),
}

/// The error of a save decode.
#[derive(Debug, Clone, Copy, PartialEq, Eq, Structural)]
pub enum LoadSaveError {
    /// The bytes were read but hold something the format rules out.
    CorruptData(Corruption),
    /// The source ends before the bytes needed: `needed` bytes from its start, of which
    /// only `available` exist.
    Io { needed: usize, available: usize },
}

pub type LoadSaveResult<T> = Result<T, LoadSaveError>;

} // verus!
