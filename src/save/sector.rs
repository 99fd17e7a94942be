//! One physical sector of the save file: its payload and its footer.
use vstd::prelude::*;
use vstd::slice::slice_subrange;
use crate::bytes::{le_u16, le_u32, read_u16_le, read_u32_le};
use super::checksum::{calculate_checksum, checksum_of};
use super::error::{Corruption, LoadSaveError, LoadSaveResult};

verus! {

/// Bytes of payload in a sector, before its footer.
pub const SECTOR_DATA_SIZE: usize = 0xff4;

/// Bytes of a whole sector: payload and the 12-byte footer.
pub const SECTOR_SIZE: usize = 0x1000;

/// What a sector holds, as plain values.
pub struct SectorView {
    pub data: Seq<u8>,
    pub id: u16,
    pub checksum: u16,
    pub security: u32,
    pub counter: u32,
}

/// One physical sector: its payload and the fields of its footer.
#[derive(Clone, Debug)]
pub struct Sector {
    pub data: Vec<u8>,
    pub id: u16,
    pub checksum: u16,
    pub security: u32,
    pub counter: u32,
}

impl View for Sector {
    type V = SectorView;

    open spec fn view(&self) -> SectorView {
        SectorView {
            data: self.data@,
            id: self.id,
            checksum: self.checksum,
            security: self.security,
            counter: self.counter,
        }
    }
}

/// The sector stored in the first `SECTOR_SIZE` bytes of `raw`.
pub open spec fn sector_from(raw: Seq<u8>) -> SectorView {
    SectorView {
        data: raw.subrange(0, SECTOR_DATA_SIZE as int),
        id: le_u16(raw, 0xff4),
        checksum: le_u16(raw, 0xff6),
        security: le_u32(raw, 0xff8),
        counter: le_u32(raw, 0xffc),
    }
}

/// The sector at position `index` of the source `s`, or the I/O error of a truncated source.
pub open spec fn sector_at(s: Seq<u8>, index: int) -> Result<SectorView, LoadSaveError> {
    let end = (index + 1) * SECTOR_SIZE;
    if s.len() < end {
        Err(LoadSaveError::Io { needed: end as usize, available: s.len() as usize })
    } else {
        Ok(sector_from(s.subrange(index * SECTOR_SIZE, end)))
    }
}

/// The checksum that the bytes `data[..size]` of a sector should carry.
pub open spec fn block_checksum(sec: SectorView, size: int) -> u16 {
    checksum_of(sec.data.subrange(0, size))
}

impl Sector {
    /// A sector holds a full payload.
    pub open spec fn wf(&self) -> bool {
        self.data@.len() == SECTOR_DATA_SIZE
    }

    /// Reads the sector at position `index` of the source.
    pub fn read_at(source: &[u8], index: u8) -> (r: LoadSaveResult<Sector>)
        ensures
            match r {
                Ok(sec) => sec.wf() && sector_at(source@, index as int) == Ok::<
                    SectorView,
                    LoadSaveError,
                >(sec@),
                Err(e) => sector_at(source@, index as int) == Err::<SectorView, LoadSaveError>(e),
            },
    {
        let start = index as usize * SECTOR_SIZE;
        let end = start + SECTOR_SIZE;
        if source.len() < end {
            return Err(LoadSaveError::Io { needed: end, available: source.len() });
        }
        let raw = slice_subrange(source, start, end);
        let r = Sector::read(raw);
        match r {
            Ok(sec) => Ok(sec),
            Err(_) => Err(LoadSaveError::Io { needed: end, available: source.len() }),
        }
    }

    /// Reads one sector from the start of `raw`: its payload, then its footer.
    pub fn read(raw: &[u8]) -> (r: LoadSaveResult<Sector>)
        ensures
            match r {
                Ok(sec) => raw@.len() >= SECTOR_SIZE && sec.wf() && sec@ == sector_from(raw@),
                Err(e) => raw@.len() < SECTOR_SIZE && e == (LoadSaveError::Io {
                    needed: SECTOR_SIZE,
                    available: raw@.len() as usize,
                }),
            },
    {
        if raw.len() < SECTOR_SIZE {
            return Err(LoadSaveError::Io { needed: SECTOR_SIZE, available: raw.len() });
        }
        let mut data: Vec<u8> = Vec::with_capacity(SECTOR_DATA_SIZE);
        let mut i: usize = 0;
        while i < SECTOR_DATA_SIZE
            invariant
                i <= SECTOR_DATA_SIZE <= raw@.len(),
                data@ == raw@.subrange(0, i as int),
            decreases SECTOR_DATA_SIZE - i,
        {
            data.push(raw[i]);
            i += 1;
        }
        let id = read_u16_le(raw, 0xff4);
        let checksum = read_u16_le(raw, 0xff6);
        let security = read_u32_le(raw, 0xff8);
        let counter = read_u32_le(raw, 0xffc);
        Ok(Sector { data, id, checksum, security, counter })
    }

    /// The first `size` bytes of the payload, if they carry the footer's checksum.
    pub fn validate_data(&self, size: usize) -> (r: LoadSaveResult<&[u8]>)
        requires
            size <= self.data@.len(),
            size % 4 == 0,
        ensures
            match r {
                Ok(d) => block_checksum(self@, size as int) == self.checksum && d@
                    == self.data@.subrange(0, size as int),
                Err(e) => block_checksum(self@, size as int) != self.checksum && e
                    == LoadSaveError::CorruptData(
                    Corruption::Checksum {
                        expected: block_checksum(self@, size as int),
                        actual: self.checksum,
                    },
                ),
            },
    {
        let data = slice_subrange(self.data.as_slice(), 0, size);
        let expected_checksum = calculate_checksum(data);
        if expected_checksum != self.checksum {
            Err(
                LoadSaveError::CorruptData(
                    Corruption::Checksum { expected: expected_checksum, actual: self.checksum },
                ),
            )
        } else {
            Ok(data)
        }
    }
}


/// Sectors in a save file.
pub const NUM_SECTORS: u64 = 32;

/// A sector read in sequence from the start of the file.
pub type SaveSection = Sector;

/// Reads the sectors of a save file one after another from its start.
pub struct SaveSectionReader {
    /// Sectors still to be read.
    pub remaining: u64,
}

impl SaveSectionReader {
    /// A reader positioned at the first sector.
    pub fn new() -> (r: SaveSectionReader)
        ensures
            r.remaining == NUM_SECTORS,
    {
        SaveSectionReader { remaining: NUM_SECTORS }
    }

    /// The next sector, or `None` once all have been read. A sector that cannot be read
    /// gives its error and is passed over, so every call moves the reader on by one
    /// sector and the reader ends after `NUM_SECTORS` calls.
    pub fn next(&mut self, source: &[u8]) -> (r: Option<LoadSaveResult<Sector>>)
        requires
            old(self).remaining <= NUM_SECTORS,
        ensures
            final(self).remaining <= NUM_SECTORS,
            old(self).remaining == 0 ==> r is None && final(self).remaining == 0,
            old(self).remaining > 0 ==> {
                let index = NUM_SECTORS - old(self).remaining;
                match r {
                    Some(Ok(sec)) => sector_at(source@, index) == Ok::<SectorView, LoadSaveError>(sec@)
                        && final(self).remaining == old(self).remaining - 1,
                    Some(Err(e)) => sector_at(source@, index) == Err::<SectorView, LoadSaveError>(e)
                        && final(self).remaining == old(self).remaining - 1,
                    None => false,
                }
            },
    {
        if self.remaining == 0 {
            None
        } else {
            let index = (NUM_SECTORS - self.remaining) as u8;
            self.remaining = self.remaining - 1;
            Some(Sector::read_at(source, index))
        }
    }
}

impl Sector {
    /// Reads every sector of the save file, in order: each entry is the sector at that
    /// position or the error of reading it.
    pub fn read_all(source: &[u8]) -> (r: Vec<LoadSaveResult<Sector>>)
        ensures
            r@.len() == NUM_SECTORS,
            forall|i: int|
                0 <= i < NUM_SECTORS ==> match #[trigger] r@[i] {
                    Ok(sec) => sector_at(source@, i) == Ok::<SectorView, LoadSaveError>(sec@),
                    Err(e) => sector_at(source@, i) == Err::<SectorView, LoadSaveError>(e),
                },
    {
        let mut result: Vec<LoadSaveResult<Sector>> = Vec::new();
        let mut i: u8 = 0;
        while (i as u64) < NUM_SECTORS
            invariant
                i <= NUM_SECTORS,
                result@.len() == i,
                forall|k: int|
                    0 <= k < i ==> match #[trigger] result@[k] {
                        Ok(sec) => sector_at(source@, k) == Ok::<SectorView, LoadSaveError>(sec@),
                        Err(e) => sector_at(source@, k) == Err::<SectorView, LoadSaveError>(e),
                    },
            decreases NUM_SECTORS - i,
        {
            result.push(Sector::read_at(source, i));
            i += 1;
        }
        result
    }
}

} // verus!
