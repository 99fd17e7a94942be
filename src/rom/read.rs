//! Reading pointers and fixed-width string lists out of a cartridge image.
use vstd::prelude::*;
use crate::bytes::{le_u32, read_u32_le};
use crate::encoding::{lossy_text, parse_string_lossy};

verus! {

/// The address at which the cartridge image is mapped in the console's memory.
pub const ROM_BASE: u32 = 0x0800_0000;

/// Why a table could not be read from the image.
#[derive(Debug, Clone, Copy, PartialEq, Eq, Structural)]
pub enum RomError {
    /// `len` bytes were wanted at `offset`, past the end of the image.
    Eof { offset: u64, len: u64 },
    /// A stored pointer lies below the address the image is mapped at.
    BadPointer(u32),
}

/// Whether `len` bytes at `offset` lie inside an image of `size` bytes.
pub open spec fn in_bounds(size: int, offset: int, len: int) -> bool {
    offset + len <= size
}

/// The image offset that the pointer stored at `address` refers to.
pub open spec fn pointer_at(rom: Seq<u8>, address: int) -> Result<int, RomError> {
    if !in_bounds(rom.len() as int, address, 4) {
        Err(RomError::Eof { offset: address as u64, len: 4 })
    } else if le_u32(rom, address) < ROM_BASE {
        Err(RomError::BadPointer(le_u32(rom, address)))
    } else {
        Ok(le_u32(rom, address) - ROM_BASE)
    }
}

/// `count` strings of `size` bytes each, stored one after another from `start`.
pub open spec fn string_list(rom: Seq<u8>, start: int, count: int, size: int) -> Result<
    Seq<Seq<char>>,
    RomError,
> {
    if !in_bounds(rom.len() as int, start, count * size) {
        Err(RomError::Eof { offset: start as u64, len: (count * size) as u64 })
    } else {
        Ok(Seq::new(count as nat, |i: int| lossy_text(rom.subrange(start + i * size, start + (i + 1) * size))))
    }
}

/// The string list that the pointer stored at `address` refers to.
pub open spec fn pointed_string_list(rom: Seq<u8>, address: int, count: int, size: int) -> Result<
    Seq<Seq<char>>,
    RomError,
> {
    match pointer_at(rom, address) {
        Err(e) => Err(e),
        Ok(p) => string_list(rom, p, count, size),
    }
}

/// Checks that `len` bytes at `offset` lie inside `rom`.
pub fn check_bounds(rom: &[u8], offset: u64, len: u64) -> (r: Result<(), RomError>)
    ensures
        r is Ok <==> in_bounds(rom@.len() as int, offset as int, len as int),
        r matches Err(e) ==> e == (RomError::Eof { offset: offset, len: len }),
{
    let size = rom.len() as u64;
    if offset > size || len > size - offset {
        Err(RomError::Eof { offset, len })
    } else {
        Ok(())
    }
}

/// Reads the pointer stored at `address` and turns it into an image offset.
pub fn read_pointer(rom: &[u8], address: u64) -> (r: Result<u64, RomError>)
    ensures
        match r {
            Ok(p) => pointer_at(rom@, address as int) == Ok::<int, RomError>(p as int),
            Err(e) => pointer_at(rom@, address as int) == Err::<int, RomError>(e),
        },
{
    check_bounds(rom, address, 4)?;
    let n = rom.len();
    assert(address + 4 <= n);
    let raw = read_u32_le(rom, address as usize);
    if raw < ROM_BASE {
        return Err(RomError::BadPointer(raw));
    }
    Ok((raw - ROM_BASE) as u64)
}

/// Reads `count` strings of `size` bytes each, stored one after another from `start`.
pub fn read_string_list(rom: &[u8], start: u64, count: usize, size: usize) -> (r: Result<
    Vec<String>,
    RomError,
>)
    requires
        count * size <= usize::MAX,
    ensures
        match r {
            Ok(v) => string_list(rom@, start as int, count as int, size as int) == Ok::<
                Seq<Seq<char>>,
                RomError,
            >(v@.map_values(|s: String| s@)),
            Err(e) => string_list(rom@, start as int, count as int, size as int) == Err::<
                Seq<Seq<char>>,
                RomError,
            >(e),
        },
{
    let total = count * size;
    check_bounds(rom, start, total as u64)?;
    let start = start as usize;
    let n = rom.len();
    let mut result: Vec<String> = Vec::new();
    let mut i: usize = 0;
    while i < count
        invariant
            n == rom@.len(),
            i <= count,
            total == count * size,
            start + total <= rom@.len(),
            result@.len() == i,
            forall|k: int|
                0 <= k < i ==> #[trigger] result@[k]@ == lossy_text(
                    rom@.subrange(start + k * size, start + (k + 1) * size),
                ),
        decreases count - i,
    {
        assert(i * size + size <= total) by (nonlinear_arith)
            requires
                i < count,
                total == count * size,
        ;
        assert(start + i * size + size == start + (i + 1) * size) by (nonlinear_arith);
        let at = start + i * size;
        let s = parse_string_lossy(vstd::slice::slice_subrange(rom, at, at + size));
        result.push(s);
        i += 1;
    }
    assert(result@.map_values(|s: String| s@) =~= Seq::new(
        count as nat,
        |k: int| lossy_text(rom@.subrange(start + k * size, start + (k + 1) * size)),
    ));
    Ok(result)
}

} // verus!
