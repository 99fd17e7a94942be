//! The two logical blocks of a slot and the whole decoded save.
use std::collections::HashSet;
use vstd::prelude::*;
use crate::bytes::{le_u16, le_u32, read_u16_le, read_u32_le};
use crate::encoding::{lossy_text, parse_string_lossy};
use super::error::{Corruption, LoadSaveError, LoadSaveResult};
use super::sector::{block_checksum, sector_at, Sector, SectorView, SECTOR_DATA_SIZE, SECTOR_SIZE};

verus! {

broadcast use vstd::std_specs::hash::group_hash_axioms;

/// Sectors in one save slot.
pub const SAVE_SECTION_SECTORS: u8 = 14;

/// Characters of the player's name, not counting its terminator.
pub const PLAYER_NAME_LENGTH: usize = 7;

/// Bytes of the profile block covered by its checksum.
pub const PROFILE_BLOCK_SIZE: usize = 0xF24;

/// Offset of the money field in the state block.
pub const MONEY_OFFSET: usize = 0x0290;

/// Offset of the "seen" bitset in the state block.
pub const SEEN_OFFSET: usize = 0x0310;

/// Offset of the "caught" bitset in the state block.
pub const CAUGHT_OFFSET: usize = 0x038D;

/// Bytes of each status bitset: one bit for each of 1000 entries.
pub const POKEDEX_FLAGS_BYTES: usize = 125;

/// The player's gender.
#[derive(Debug, Copy, Clone, PartialEq, Eq, Structural)]
pub enum Gender {
    Male,
    Female,
}

impl Gender {
    /// The gender that a raw byte stands for, or the byte itself when it stands for none.
    pub fn try_from(raw: u8) -> (r: Result<Gender, u8>)
        ensures
            r == gender_of(raw),
    {
        match raw {
            0 => Ok(Gender::Male),
            1 => Ok(Gender::Female),
            other => Err(other),
        }
    }
}

/// 0 is male, 1 is female; any other byte is refused.
pub open spec fn gender_of(raw: u8) -> Result<Gender, u8> {
    if raw == 0 {
        Ok(Gender::Male)
    } else if raw == 1 {
        Ok(Gender::Female)
    } else {
        Err(raw)
    }
}

/// Elapsed play time as stored: hours, minutes and seconds.
#[derive(Debug, Copy, Clone, PartialEq, Eq, Structural)]
pub struct PlayTime {
    pub hours: u16,
    pub minutes: u8,
    pub seconds: u8,
}

impl PlayTime {
    /// The play time as a number of seconds.
    pub open spec fn total_seconds(&self) -> int {
        self.hours * 3600 + self.minutes * 60 + self.seconds
    }

    /// The play time as a number of seconds.
    pub fn as_secs(&self) -> (r: u64)
        ensures
            r == self.total_seconds(),
    {
        self.hours as u64 * 3600 + self.minutes as u64 * 60 + self.seconds as u64
    }
}

/// Whether the bitset `flags` marks entry `id`: bit `7 - id % 8` of byte `id / 8`, so
/// the most significant bit of each byte comes first.
pub open spec fn flag_is_set(flags: Seq<u8>, id: int) -> bool {
    flags[id / 8] & (1u8 << ((7 - id % 8) as u8)) != 0
}

/// The entries that the first 125 bytes of `flags` mark.
pub open spec fn flag_set(flags: Seq<u8>) -> Set<u16> {
    Set::new(|id: u16| id < 8 * POKEDEX_FLAGS_BYTES && flag_is_set(flags, id as int))
}

/// Reads a status bitset: each set bit `j` (counted from the most significant) of byte
/// `i` marks entry `8 * i + j`.
pub fn parse_pokedex_flags(flags: &[u8]) -> (r: HashSet<u16>)
    requires
        flags@.len() >= POKEDEX_FLAGS_BYTES,
    ensures
        r@ == flag_set(flags@),
{
    let mut result: HashSet<u16> = HashSet::new();
    let mut i: usize = 0;
    while i < POKEDEX_FLAGS_BYTES
        invariant
            i <= POKEDEX_FLAGS_BYTES <= flags@.len(),
            result@ == Set::new(|id: u16| id < 8 * i && flag_is_set(flags@, id as int)),
        decreases POKEDEX_FLAGS_BYTES - i,
    {
        let flag = flags[i];
        let mut j: u16 = 0;
        while j < 8
            invariant
                i < POKEDEX_FLAGS_BYTES <= flags@.len(),
                j <= 8,
                flag == flags@[i as int],
                result@ == Set::new(|id: u16| id < 8 * i + j && flag_is_set(flags@, id as int)),
            decreases 8 - j,
        {
            let id: u16 = i as u16 * 8 + j;
            let set = flag & (1u8 << (7 - j)) != 0;
            assert(id / 8 == i && id % 8 == j);
            let ghost before = result@;
            if set {
                result.insert(id);
            }
            assert(result@ =~= Set::new(
                |x: u16| x < 8 * i + j + 1 && flag_is_set(flags@, x as int),
            )) by {
                assert(set == flag_is_set(flags@, id as int));
            }
            j += 1;
        }
        i += 1;
    }
    result
}

/// The sets of entries marked seen and caught.
#[derive(Debug)]
pub struct Pokedex {
    pub seen: HashSet<u16>,
    pub caught: HashSet<u16>,
}


/// What the profile block holds.
pub struct ProfileView {
    pub player_name: Seq<char>,
    pub gender: Gender,
    pub trainer_id: Seq<u8>,
    pub play_time: PlayTime,
}

/// The profile block: the player's name, gender, trainer id and play time.
#[derive(Debug)]
pub struct SaveBlock2 {
    pub player_name: String,
    pub gender: Gender,
    pub trainer_id: [u8; 4],
    pub play_time: PlayTime,
}

impl View for SaveBlock2 {
    type V = ProfileView;

    open spec fn view(&self) -> ProfileView {
        ProfileView {
            player_name: self.player_name@,
            gender: self.gender,
            trainer_id: self.trainer_id@,
            play_time: self.play_time,
        }
    }
}

/// The profile block that the sector `sec` holds, or why it holds none: a checksum that
/// does not match over the block's declared size, or a gender byte other than 0 or 1.
pub open spec fn profile_of(sec: SectorView) -> Result<ProfileView, LoadSaveError> {
    let d = sec.data;
    let expected = block_checksum(sec, PROFILE_BLOCK_SIZE as int);
    if expected != sec.checksum {
        Err(
            LoadSaveError::CorruptData(
                Corruption::Checksum { expected: expected, actual: sec.checksum },
            ),
        )
    } else {
        match gender_of(d[8]) {
            Err(g) => Err(LoadSaveError::CorruptData(Corruption::Gender(g))),
            Ok(gender) => Ok(
                ProfileView {
                    player_name: lossy_text(d.subrange(0, 8)),
                    gender: gender,
                    trainer_id: d.subrange(10, 14),
                    play_time: PlayTime { hours: le_u16(d, 14), minutes: d[16], seconds: d[17] },
                },
            ),
        }
    }
}

impl SaveBlock2 {
    /// Decodes the profile block from the sector that holds logical section 0.
    pub fn from_sector(sector: &Sector) -> (r: LoadSaveResult<SaveBlock2>)
        requires
            sector.wf(),
        ensures
            match r {
                Ok(b) => profile_of(sector@) == Ok::<ProfileView, LoadSaveError>(b@),
                Err(e) => profile_of(sector@) == Err::<ProfileView, LoadSaveError>(e),
            },
    {
        let data = sector.validate_data(PROFILE_BLOCK_SIZE)?;
        let raw_player_name = vstd::slice::slice_subrange(data, 0, PLAYER_NAME_LENGTH + 1);
        let player_name = parse_string_lossy(raw_player_name);
        assert(raw_player_name@ =~= sector@.data.subrange(0, 8));
        let gender = match Gender::try_from(data[8]) {
            Ok(g) => g,
            Err(i) => {
                return Err(LoadSaveError::CorruptData(Corruption::Gender(i)));
            },
        };
        let trainer_id: [u8; 4] = [data[10], data[11], data[12], data[13]];
        let hours = read_u16_le(data, 14);
        let minutes = data[16];
        let seconds = data[17];
        let play_time = PlayTime { hours, minutes, seconds };
        let r = SaveBlock2 { player_name, gender, trainer_id, play_time };
        assert(r@.trainer_id =~= sector@.data.subrange(10, 14));
        assert(hours == le_u16(sector@.data, 14));
        Ok(r)
    }
}

/// What the state block holds.
pub struct StateView {
    pub money: u32,
    pub seen: Set<u16>,
    pub caught: Set<u16>,
}

/// The state block: money and the two status bitsets.
#[derive(Debug)]
pub struct SaveBlock1 {
    pub money: u32,
    pub pokedex: Pokedex,
}

impl View for SaveBlock1 {
    type V = StateView;

    open spec fn view(&self) -> StateView {
        StateView { money: self.money, seen: self.pokedex.seen@, caught: self.pokedex.caught@ }
    }
}

/// The state block that the sector `sec` holds, or the checksum error that refuses it.
pub open spec fn state_of(sec: SectorView) -> Result<StateView, LoadSaveError> {
    let d = sec.data;
    let expected = block_checksum(sec, SECTOR_DATA_SIZE as int);
    if expected != sec.checksum {
        Err(
            LoadSaveError::CorruptData(
                Corruption::Checksum { expected: expected, actual: sec.checksum },
            ),
        )
    } else {
        Ok(
            StateView {
                money: le_u32(d, MONEY_OFFSET as int),
                seen: flag_set(
                    d.subrange(SEEN_OFFSET as int, SEEN_OFFSET + POKEDEX_FLAGS_BYTES),
                ),
                caught: flag_set(
                    d.subrange(CAUGHT_OFFSET as int, CAUGHT_OFFSET + POKEDEX_FLAGS_BYTES),
                ),
            },
        )
    }
}

impl SaveBlock1 {
    /// Decodes the state block from the sector that holds logical section 1.
    pub fn from_sector(sector: &Sector) -> (r: LoadSaveResult<SaveBlock1>)
        requires
            sector.wf(),
        ensures
            match r {
                Ok(b) => state_of(sector@) == Ok::<StateView, LoadSaveError>(b@),
                Err(e) => state_of(sector@) == Err::<StateView, LoadSaveError>(e),
            },
    {
        let data = sector.validate_data(SECTOR_DATA_SIZE)?;
        let money = read_u32_le(data, MONEY_OFFSET);
        let seen = parse_pokedex_flags(
            vstd::slice::slice_subrange(data, SEEN_OFFSET, SEEN_OFFSET + POKEDEX_FLAGS_BYTES),
        );
        let caught = parse_pokedex_flags(
            vstd::slice::slice_subrange(data, CAUGHT_OFFSET, CAUGHT_OFFSET + POKEDEX_FLAGS_BYTES),
        );
        assert(money == le_u32(sector@.data, MONEY_OFFSET as int));
        assert(data@.subrange(SEEN_OFFSET as int, SEEN_OFFSET + POKEDEX_FLAGS_BYTES)
            =~= sector@.data.subrange(SEEN_OFFSET as int, SEEN_OFFSET + POKEDEX_FLAGS_BYTES));
        assert(data@.subrange(CAUGHT_OFFSET as int, CAUGHT_OFFSET + POKEDEX_FLAGS_BYTES)
            =~= sector@.data.subrange(CAUGHT_OFFSET as int, CAUGHT_OFFSET + POKEDEX_FLAGS_BYTES));
        Ok(SaveBlock1 { money, pokedex: Pokedex { seen, caught } })
    }
}


/// What a decoded save holds.
pub struct SaveView {
    pub player_name: Seq<char>,
    pub gender: Gender,
    pub trainer_id: Seq<u8>,
    pub play_time: PlayTime,
    pub money: u32,
    pub seen: Set<u16>,
    pub caught: Set<u16>,
}

/// A decoded save: every field comes from a block whose checksum matched.
#[derive(Debug)]
pub struct Save {
    pub player_name: String,
    pub gender: Gender,
    pub trainer_id: [u8; 4],
    pub play_time: PlayTime,
    pub money: u32,
    pub pokedex: Pokedex,
}

impl View for Save {
    type V = SaveView;

    open spec fn view(&self) -> SaveView {
        SaveView {
            player_name: self.player_name@,
            gender: self.gender,
            trainer_id: self.trainer_id@,
            play_time: self.play_time,
            money: self.money,
            seen: self.pokedex.seen@,
            caught: self.pokedex.caught@,
        }
    }
}

/// A decode result with the save replaced by its view.
pub open spec fn save_result(r: LoadSaveResult<Save>) -> Result<SaveView, LoadSaveError> {
    match r {
        Ok(s) => Ok(s@),
        Err(e) => Err(e),
    }
}

/// The notice given when the preferred slot failed and the other one was decoded instead.
#[derive(Debug, Clone, Copy, PartialEq, Eq, Structural)]
pub struct SlotFallback {
    /// The slot (0 or 1) that failed.
    pub slot: u8,
    /// Why it failed.
    pub error: LoadSaveError,
}

/// Where, counted from the slot's start, the sector holding logical section 0 lies when
/// the slot's first sector holds section `first_id`.
pub open spec fn head_offset(first_id: u16) -> int {
    (SAVE_SECTION_SECTORS - first_id) % (SAVE_SECTION_SECTORS as int)
}

/// The save held by slot `slot` of the source `s`, whose first sector is `first`.
/// Logical sections follow one another cyclically from the one holding section 0;
/// section 0 is the profile block, section 1 the state block.
pub open spec fn decode_slot(s: Seq<u8>, slot: int, first: SectorView) -> Result<
    SaveView,
    LoadSaveError,
> {
    let base = slot * SAVE_SECTION_SECTORS;
    if first.id >= SAVE_SECTION_SECTORS {
        Err(LoadSaveError::CorruptData(Corruption::InvalidSectionId(first.id)))
    } else {
        let h = head_offset(first.id);
        let head = if h == 0 {
            Ok(first)
        } else {
            sector_at(s, base + h)
        };
        match head {
            Err(e) => Err(e),
            Ok(head) => if head.id != 0 {
                Err(
                    LoadSaveError::CorruptData(
                        Corruption::SectionId { expected: 0, actual: head.id },
                    ),
                )
            } else {
                match profile_of(head) {
                    Err(e) => Err(e),
                    Ok(p) => match sector_at(
                        s,
                        base + (h + 1) % (SAVE_SECTION_SECTORS as int),
                    ) {
                        Err(e) => Err(e),
                        Ok(next) => if next.id != 1 {
                            Err(
                                LoadSaveError::CorruptData(
                                    Corruption::SectionId { expected: 1, actual: next.id },
                                ),
                            )
                        } else {
                            match state_of(next) {
                                Err(e) => Err(e),
                                Ok(st) => Ok(
                                    SaveView {
                                        player_name: p.player_name,
                                        gender: p.gender,
                                        trainer_id: p.trainer_id,
                                        play_time: p.play_time,
                                        money: st.money,
                                        seen: st.seen,
                                        caught: st.caught,
                                    },
                                ),
                            }
                        },
                    },
                }
            },
        }
    }
}

/// Decodes slot `slot`, falling back to the other slot if that fails.
pub open spec fn decode_with_fallback(
    s: Seq<u8>,
    slot: int,
    first: SectorView,
    fallback_first: SectorView,
) -> Result<SaveView, LoadSaveError> {
    match decode_slot(s, slot, first) {
        Ok(v) => Ok(v),
        Err(_) => decode_slot(s, 1 - slot, fallback_first),
    }
}

/// The save that the source `s` holds. When both slots' first sectors can be read, the
/// one whose write counter is not lower is decoded, and the other on failure; when only
/// one can be read, that one is decoded; when neither, the first read error is returned.
pub open spec fn decode_save(s: Seq<u8>) -> Result<SaveView, LoadSaveError> {
    let r1 = sector_at(s, 0);
    let r2 = sector_at(s, SAVE_SECTION_SECTORS as int);
    match r1 {
        Ok(s1) => match r2 {
            Ok(s2) => if s1.counter >= s2.counter {
                decode_with_fallback(s, 0, s1, s2)
            } else {
                decode_with_fallback(s, 1, s2, s1)
            },
            Err(_) => decode_slot(s, 0, s1),
        },
        Err(e) => match r2 {
            Ok(s2) => decode_slot(s, 1, s2),
            Err(_) => Err(e),
        },
    }
}

/// The fallback notices that decoding the source `s` gives: one when the preferred of
/// two readable slots fails, none otherwise.
pub open spec fn fallback_notices(s: Seq<u8>) -> Seq<SlotFallback> {
    let r1 = sector_at(s, 0);
    let r2 = sector_at(s, SAVE_SECTION_SECTORS as int);
    match (r1, r2) {
        (Ok(s1), Ok(s2)) => {
            let slot: u8 = if s1.counter >= s2.counter {
                0
            } else {
                1
            };
            let first = if s1.counter >= s2.counter {
                s1
            } else {
                s2
            };
            match decode_slot(s, slot as int, first) {
                Ok(_) => Seq::empty(),
                Err(e) => seq![SlotFallback { slot: slot, error: e }],
            }
        },
        _ => Seq::empty(),
    }
}

impl Save {
    /// Decodes the save held by the source: picks the slot with the fresher write
    /// counter, and falls back to the other slot if that one fails, recording a notice
    /// in `warnings`.
    pub fn read(source: &[u8], warnings: &mut Vec<SlotFallback>) -> (r: LoadSaveResult<Save>)
        ensures
            save_result(r) == decode_save(source@),
            final(warnings)@ == old(warnings)@ + fallback_notices(source@),
    {
        let r1 = Sector::read_at(source, 0);
        let r2 = Sector::read_at(source, SAVE_SECTION_SECTORS);
        match r1 {
            Ok(s1) => match r2 {
                Ok(s2) => {
                    if s1.counter >= s2.counter {
                        Save::read_slot_with_fallback(source, 0, s1, s2, warnings)
                    } else {
                        Save::read_slot_with_fallback(source, 1, s2, s1, warnings)
                    }
                },
                Err(_) => {
                    assert(old(warnings)@ + Seq::<SlotFallback>::empty() =~= old(warnings)@);
                    Save::read_slot(source, 0, s1)
                },
            },
            Err(e) => match r2 {
                Ok(s2) => {
                    assert(old(warnings)@ + Seq::<SlotFallback>::empty() =~= old(warnings)@);
                    Save::read_slot(source, 1, s2)
                },
                Err(_) => {
                    assert(old(warnings)@ + Seq::<SlotFallback>::empty() =~= old(warnings)@);
                    Err(e)
                },
            },
        }
    }

    /// Decodes slot `slot`; if that fails, records a notice and decodes the other slot.
    pub fn read_slot_with_fallback(
        source: &[u8],
        slot: u8,
        fst_sector: Sector,
        fallback_fst_sector: Sector,
        warnings: &mut Vec<SlotFallback>,
    ) -> (r: LoadSaveResult<Save>)
        requires
            slot < 2,
            fst_sector.wf(),
            fallback_fst_sector.wf(),
        ensures
            save_result(r) == decode_with_fallback(
                source@,
                slot as int,
                fst_sector@,
                fallback_fst_sector@,
            ),
            final(warnings)@ == old(warnings)@ + match decode_slot(
                source@,
                slot as int,
                fst_sector@,
            ) {
                Ok(_) => Seq::<SlotFallback>::empty(),
                Err(e) => seq![SlotFallback { slot: slot, error: e }],
            },
    {
        match Save::read_slot(source, slot, fst_sector) {
            Ok(s) => {
                assert(old(warnings)@ + Seq::<SlotFallback>::empty() =~= old(warnings)@);
                Ok(s)
            },
            Err(e) => {
                warnings.push(SlotFallback { slot, error: e });
                assert(final(warnings)@ =~= old(warnings)@ + seq![SlotFallback { slot: slot, error: e }]);
                Save::read_slot(source, 1 - slot, fallback_fst_sector)
            },
        }
    }

    /// Decodes slot `slot`, whose first sector is `fst_sector`.
    pub fn read_slot(source: &[u8], slot: u8, fst_sector: Sector) -> (r: LoadSaveResult<Save>)
        requires
            slot < 2,
            fst_sector.wf(),
        ensures
            save_result(r) == decode_slot(source@, slot as int, fst_sector@),
    {
        if fst_sector.id >= SAVE_SECTION_SECTORS as u16 {
            return Err(LoadSaveError::CorruptData(Corruption::InvalidSectionId(fst_sector.id)));
        }
        let base = slot * SAVE_SECTION_SECTORS;
        let sector_offset = (SAVE_SECTION_SECTORS - fst_sector.id as u8) % SAVE_SECTION_SECTORS;
        let start_sector = if sector_offset == 0 {
            fst_sector
        } else {
            Sector::read_at(source, base + sector_offset)?
        };
        if start_sector.id != 0 {
            return Err(
                LoadSaveError::CorruptData(
                    Corruption::SectionId { expected: 0, actual: start_sector.id },
                ),
            );
        }
        let block2 = SaveBlock2::from_sector(&start_sector)?;
        let sector1 = Sector::read_at(
            source,
            base + (sector_offset + 1) % SAVE_SECTION_SECTORS,
        )?;
        if sector1.id != 1 {
            return Err(
                LoadSaveError::CorruptData(Corruption::SectionId { expected: 1, actual: sector1.id }),
            );
        }
        let block1 = SaveBlock1::from_sector(&sector1)?;
        Ok(
            Save {
                player_name: block2.player_name,
                gender: block2.gender,
                trainer_id: block2.trainer_id,
                play_time: block2.play_time,
                money: block1.money,
                pokedex: block1.pokedex,
            },
        )
    }
}


/// Two sources of one length that agree on the bytes of sector `index` read the same there.
proof fn lemma_sector_at_agrees(s1: Seq<u8>, s2: Seq<u8>, index: int)
    requires
        0 <= index,
        s1.len() == s2.len(),
        forall|k: int|
            index * SECTOR_SIZE <= k < (index + 1) * SECTOR_SIZE && k < s1.len() ==> s1[k]
                == s2[k],
    ensures
        sector_at(s1, index) == sector_at(s2, index),
{
    let a = index * SECTOR_SIZE;
    let b = (index + 1) * SECTOR_SIZE;
    if b <= s1.len() {
        assert(s1.subrange(a, b) =~= s2.subrange(a, b));
    }
}

/// Decoding a slot reads only that slot's sectors: two sources of one length that agree
/// on the slot's bytes give the same result for it, whatever the rest holds.
pub proof fn lemma_slot_reads_only_its_sectors(
    s1: Seq<u8>,
    s2: Seq<u8>,
    slot: int,
    first: SectorView,
)
    requires
        0 <= slot < 2,
        s1.len() == s2.len(),
        forall|k: int|
            slot * SAVE_SECTION_SECTORS * SECTOR_SIZE <= k < (slot + 1) * SAVE_SECTION_SECTORS
                * SECTOR_SIZE && k < s1.len() ==> s1[k] == s2[k],
    ensures
        decode_slot(s1, slot, first) == decode_slot(s2, slot, first),
{
    if first.id < SAVE_SECTION_SECTORS {
        let base = slot * SAVE_SECTION_SECTORS;
        let h = head_offset(first.id);
        let n = (h + 1) % (SAVE_SECTION_SECTORS as int);
        assert((base + h) * SECTOR_SIZE >= slot * SAVE_SECTION_SECTORS * SECTOR_SIZE
            && (base + h + 1) * SECTOR_SIZE <= (slot + 1) * SAVE_SECTION_SECTORS * SECTOR_SIZE)
            by (nonlinear_arith)
            requires
                base == slot * SAVE_SECTION_SECTORS,
                0 <= h < SAVE_SECTION_SECTORS,
        ;
        assert((base + n) * SECTOR_SIZE >= slot * SAVE_SECTION_SECTORS * SECTOR_SIZE
            && (base + n + 1) * SECTOR_SIZE <= (slot + 1) * SAVE_SECTION_SECTORS * SECTOR_SIZE)
            by (nonlinear_arith)
            requires
                base == slot * SAVE_SECTION_SECTORS,
                0 <= n < SAVE_SECTION_SECTORS,
        ;
        lemma_sector_at_agrees(s1, s2, base + h);
        lemma_sector_at_agrees(s1, s2, base + n);
    }
}

/// When the first sectors of both slots can be read, the first slot's write counter is
/// higher and the first slot decodes, the save is the first slot's content and no
/// fallback is noted.
pub proof fn lemma_fresher_valid_slot_wins(s: Seq<u8>)
    requires
        sector_at(s, 0) is Ok,
        sector_at(s, SAVE_SECTION_SECTORS as int) is Ok,
        sector_at(s, 0)->Ok_0.counter > sector_at(
            s,
            SAVE_SECTION_SECTORS as int,
        )->Ok_0.counter,
        decode_slot(s, 0, sector_at(s, 0)->Ok_0) is Ok,
    ensures
        decode_save(s) == decode_slot(s, 0, sector_at(s, 0)->Ok_0),
        fallback_notices(s) == Seq::<SlotFallback>::empty(),
{
}

/// When the first sectors of both slots can be read, the first slot's write counter is
/// not lower, the first slot fails to decode and the second decodes, the save is the
/// second slot's content and exactly one fallback notice, for the first slot, is given.
pub proof fn lemma_failed_fresher_slot_falls_back(s: Seq<u8>)
    requires
        sector_at(s, 0) is Ok,
        sector_at(s, SAVE_SECTION_SECTORS as int) is Ok,
        sector_at(s, 0)->Ok_0.counter >= sector_at(
            s,
            SAVE_SECTION_SECTORS as int,
        )->Ok_0.counter,
        decode_slot(s, 0, sector_at(s, 0)->Ok_0) is Err,
        decode_slot(s, 1, sector_at(s, SAVE_SECTION_SECTORS as int)->Ok_0) is Ok,
    ensures
        decode_save(s) == decode_slot(
            s,
            1,
            sector_at(s, SAVE_SECTION_SECTORS as int)->Ok_0,
        ),
        fallback_notices(s).len() == 1,
        fallback_notices(s)[0].slot == 0,
        fallback_notices(s)[0].error == decode_slot(s, 0, sector_at(s, 0)->Ok_0)->Err_0,
{
}

} // verus!
