use poke3::save::checksum::calculate_checksum;
use poke3::save::error::{Corruption, LoadSaveError};
use poke3::save::section::{parse_pokedex_flags, Gender, PlayTime, Save, SlotFallback};
use poke3::save::sector::{Sector, SaveSectionReader, SECTOR_DATA_SIZE, SECTOR_SIZE};

const PROFILE_SIZE: usize = 0xF24;

fn fold_checksum(d: &[u8]) -> u16 {
    let mut sum: u32 = 0;
    for w in d.chunks(4) {
        sum = sum.wrapping_add(u32::from_le_bytes([w[0], w[1], w[2], w[3]]));
    }
    ((sum >> 16) as u16).wrapping_add(sum as u16)
}

fn sector_bytes(id: u16, counter: u32, payload: &[u8], checked: usize) -> Vec<u8> {
    let mut data = payload.to_vec();
    data.resize(SECTOR_DATA_SIZE, 0);
    let checksum = fold_checksum(&data[..checked]);
    let mut out = data;
    out.extend_from_slice(&id.to_le_bytes());
    out.extend_from_slice(&checksum.to_le_bytes());
    out.extend_from_slice(&0x0801_2025u32.to_le_bytes());
    out.extend_from_slice(&counter.to_le_bytes());
    assert_eq!(out.len(), SECTOR_SIZE);
    out
}

// "ASH" in the game's character set, then the terminator.
const ASH: [u8; 8] = [0xBB, 0xCD, 0xC2, 0xFF, 0, 0, 0, 0];
// "MAY" in the game's character set, then the terminator.
const MAY: [u8; 8] = [0xC7, 0xBB, 0xD3, 0xFF, 0, 0, 0, 0];

fn profile_payload(name: &[u8; 8], gender: u8, tid: [u8; 4], h: u16, m: u8, s: u8) -> Vec<u8> {
    let mut p = vec![0u8; SECTOR_DATA_SIZE];
    p[..8].copy_from_slice(name);
    p[8] = gender;
    p[10..14].copy_from_slice(&tid);
    p[14..16].copy_from_slice(&h.to_le_bytes());
    p[16] = m;
    p[17] = s;
    p
}

fn set_bits(p: &mut [u8], base: usize, ids: &[u16]) {
    for &id in ids {
        let id = id as usize;
        p[base + id / 8] |= 1 << (7 - id % 8);
    }
}

fn state_payload(money: u32, seen: &[u16], caught: &[u16]) -> Vec<u8> {
    let mut p = vec![0u8; SECTOR_DATA_SIZE];
    p[0x290..0x294].copy_from_slice(&money.to_le_bytes());
    set_bits(&mut p, 0x310, seen);
    set_bits(&mut p, 0x38D, caught);
    p
}

/// Fourteen sectors in which logical section `l` sits at position `(rotation + l) % 14`.
fn slot_bytes(counter: u32, rotation: usize, profile: &[u8], state: &[u8]) -> Vec<u8> {
    let mut out = Vec::new();
    for p in 0..14 {
        let logical = (p + 14 - rotation) % 14;
        let sector = match logical {
            0 => sector_bytes(0, counter, profile, PROFILE_SIZE),
            1 => sector_bytes(1, counter, state, SECTOR_DATA_SIZE),
            l => sector_bytes(l as u16, counter, &[], SECTOR_DATA_SIZE),
        };
        out.extend_from_slice(&sector);
    }
    out
}

fn save_file(slot1: Vec<u8>, slot2: Vec<u8>) -> Vec<u8> {
    let mut out = slot1;
    out.extend_from_slice(&slot2);
    out.resize(32 * SECTOR_SIZE, 0);
    out
}

fn default_slot(counter: u32, money: u32) -> Vec<u8> {
    slot_bytes(
        counter,
        0,
        &profile_payload(&ASH, 0, [1, 2, 3, 4], 1, 2, 3),
        &state_payload(money, &[1], &[1]),
    )
}

#[test]
fn checksum_folds_word_sum() {
    // Words 1 and 0x10000: the sum 0x10001 folds to 1 + 1.
    assert_eq!(calculate_checksum(&[1, 0, 0, 0, 0, 0, 1, 0]), 2);
    assert_eq!(calculate_checksum(&[]), 0);
    // 0xFFFF_FFFF + 1 wraps to 0.
    assert_eq!(calculate_checksum(&[0xFF, 0xFF, 0xFF, 0xFF, 1, 0, 0, 0]), 0);
    // 0x0001_FFFF folds to 1 + 0xFFFF, which wraps to 0.
    assert_eq!(calculate_checksum(&[0xFF, 0xFF, 0x01, 0x00]), 0);
}

#[test]
fn checksum_changes_with_any_single_byte() {
    let data: Vec<u8> = (0..64u32).map(|i| (i * 37 + 11) as u8).collect();
    let base = calculate_checksum(&data);
    for i in 0..data.len() {
        for v in [0u8, 1, 0x7F, 0x80, 0xFF] {
            if v != data[i] {
                let mut d = data.clone();
                d[i] = v;
                assert_ne!(calculate_checksum(&d), base, "byte {} to {}", i, v);
            }
        }
    }
}

#[test]
fn sector_read_splits_payload_and_footer() {
    let raw = sector_bytes(7, 0x1234_5678, &[9, 8, 7], SECTOR_DATA_SIZE);
    let sec = Sector::read(&raw).unwrap();
    assert_eq!(sec.id, 7);
    assert_eq!(sec.counter, 0x1234_5678);
    assert_eq!(sec.security, 0x0801_2025);
    assert_eq!(sec.data.len(), SECTOR_DATA_SIZE);
    assert_eq!(&sec.data[..3], &[9, 8, 7]);
    assert_eq!(sec.checksum, fold_checksum(&sec.data));
    assert!(sec.validate_data(SECTOR_DATA_SIZE).is_ok());
}

#[test]
fn truncated_sector_is_an_io_error() {
    let raw = vec![0u8; SECTOR_SIZE - 1];
    match Sector::read(&raw) {
        Err(LoadSaveError::Io { needed, available }) => {
            assert_eq!(needed, SECTOR_SIZE);
            assert_eq!(available, SECTOR_SIZE - 1);
        }
        other => panic!("unexpected {:?}", other),
    }
    let file = vec![0u8; 3 * SECTOR_SIZE];
    assert!(Sector::read_at(&file, 2).is_ok());
    assert_eq!(
        Sector::read_at(&file, 3).unwrap_err(),
        LoadSaveError::Io { needed: 4 * SECTOR_SIZE, available: 3 * SECTOR_SIZE }
    );
}

#[test]
fn corrupt_checksum_names_both_values() {
    let mut raw = sector_bytes(0, 1, &[5, 0, 0, 0], SECTOR_DATA_SIZE);
    raw[0] = 6;
    let sec = Sector::read(&raw).unwrap();
    match sec.validate_data(SECTOR_DATA_SIZE) {
        Err(LoadSaveError::CorruptData(Corruption::Checksum { expected, actual })) => {
            assert_eq!(actual, 5);
            assert_eq!(expected, 6);
        }
        other => panic!("unexpected {:?}", other),
    }
}

#[test]
fn decodes_a_valid_save() {
    let file = save_file(default_slot(3, 1234), default_slot(2, 99));
    let mut warnings = Vec::new();
    let save = Save::read(&file, &mut warnings).unwrap();
    assert_eq!(save.player_name, "ASH");
    assert_eq!(save.gender, Gender::Male);
    assert_eq!(save.trainer_id, [1, 2, 3, 4]);
    assert_eq!(save.money, 1234);
    assert!(warnings.is_empty());
}

#[test]
fn fresher_valid_slot_wins() {
    let slot1 = slot_bytes(
        9,
        0,
        &profile_payload(&ASH, 0, [1, 1, 1, 1], 0, 0, 0),
        &state_payload(111, &[], &[]),
    );
    let slot2 = slot_bytes(
        4,
        0,
        &profile_payload(&MAY, 1, [2, 2, 2, 2], 0, 0, 0),
        &state_payload(222, &[], &[]),
    );
    let file = save_file(slot1, slot2);
    let mut warnings = Vec::new();
    let save = Save::read(&file, &mut warnings).unwrap();
    assert_eq!(save.player_name, "ASH");
    assert_eq!(save.money, 111);
    assert!(warnings.is_empty());

    // The second slot's content past its first sector is never read: garbage there
    // changes nothing.
    let mut file2 = file.clone();
    for b in file2[15 * SECTOR_SIZE..28 * SECTOR_SIZE].iter_mut() {
        *b = 0xA5;
    }
    let mut warnings2 = Vec::new();
    let save2 = Save::read(&file2, &mut warnings2).unwrap();
    assert_eq!(save2.player_name, "ASH");
    assert_eq!(save2.money, 111);
    assert!(warnings2.is_empty());
}

#[test]
fn second_slot_wins_when_its_counter_is_higher() {
    let file = save_file(default_slot(1, 10), default_slot(2, 20));
    let mut warnings = Vec::new();
    assert_eq!(Save::read(&file, &mut warnings).unwrap().money, 20);
    assert!(warnings.is_empty());
}

#[test]
fn corrupt_fresher_slot_falls_back() {
    let mut slot1 = default_slot(7, 10);
    // Break the profile block's bytes without fixing its checksum.
    slot1[20] ^= 0x40;
    let file = save_file(slot1, default_slot(5, 20));
    let mut warnings = Vec::new();
    let save = Save::read(&file, &mut warnings).unwrap();
    assert_eq!(save.money, 20);
    assert_eq!(warnings.len(), 1);
    let SlotFallback { slot, error } = warnings[0];
    assert_eq!(slot, 0);
    assert!(matches!(error, LoadSaveError::CorruptData(Corruption::Checksum { .. })));
}

#[test]
fn both_slots_failing_surfaces_the_second_error() {
    let mut slot1 = default_slot(7, 10);
    slot1[20] ^= 0x40;
    let slot2 = slot_bytes(
        5,
        0,
        &profile_payload(&ASH, 3, [0; 4], 0, 0, 0),
        &state_payload(0, &[], &[]),
    );
    let file = save_file(slot1, slot2);
    let mut warnings = Vec::new();
    let err = Save::read(&file, &mut warnings).unwrap_err();
    assert_eq!(err, LoadSaveError::CorruptData(Corruption::Gender(3)));
    assert_eq!(warnings.len(), 1);
}

#[test]
fn invalid_gender_is_corrupt_data() {
    let slot = slot_bytes(
        1,
        0,
        &profile_payload(&ASH, 2, [0; 4], 0, 0, 0),
        &state_payload(0, &[], &[]),
    );
    let mut file = slot.clone();
    file.resize(14 * SECTOR_SIZE + 100, 0);
    let mut warnings = Vec::new();
    let r = Save::read(&file, &mut warnings);
    assert_eq!(r.unwrap_err(), LoadSaveError::CorruptData(Corruption::Gender(2)));
    assert_eq!(Gender::try_from(2), Err(2));
    assert_eq!(Gender::try_from(1), Ok(Gender::Female));
}

#[test]
fn status_bitsets_round_trip() {
    let slot = slot_bytes(
        1,
        0,
        &profile_payload(&ASH, 0, [0; 4], 0, 0, 0),
        &state_payload(0, &[3, 17, 999], &[17, 500]),
    );
    let file = save_file(slot, vec![]);
    let mut warnings = Vec::new();
    let save = Save::read(&file, &mut warnings).unwrap();
    let mut seen: Vec<u16> = save.pokedex.seen.iter().cloned().collect();
    seen.sort();
    assert_eq!(seen, vec![3, 17, 999]);
    let mut caught: Vec<u16> = save.pokedex.caught.iter().cloned().collect();
    caught.sort();
    assert_eq!(caught, vec![17, 500]);

    let mut flags = vec![0u8; 125];
    set_bits(&mut flags, 0, &[3, 17, 999]);
    let ids = parse_pokedex_flags(&flags);
    assert_eq!(ids.len(), 3);
    assert!(ids.contains(&3) && ids.contains(&17) && ids.contains(&999));
    assert_eq!(flags[0], 0b0001_0000);
}

#[test]
fn play_time_in_seconds() {
    let slot = slot_bytes(
        1,
        0,
        &profile_payload(&ASH, 1, [0; 4], 1, 2, 3),
        &state_payload(0, &[], &[]),
    );
    let file = save_file(slot, vec![]);
    let mut warnings = Vec::new();
    let save = Save::read(&file, &mut warnings).unwrap();
    assert_eq!(save.play_time, PlayTime { hours: 1, minutes: 2, seconds: 3 });
    assert_eq!(save.play_time.as_secs(), 3723);
    assert_eq!(save.gender, Gender::Female);
    let t = PlayTime { hours: 65535, minutes: 59, seconds: 59 };
    assert_eq!(t.as_secs(), 65535 * 3600 + 59 * 60 + 59);
}

#[test]
fn rotated_slot_is_reassembled() {
    for rotation in [0, 1, 5, 13] {
        let slot = slot_bytes(
            1,
            rotation,
            &profile_payload(&MAY, 1, [4, 3, 2, 1], 0, 0, 0),
            &state_payload(4242, &[], &[]),
        );
        let file = save_file(slot, vec![]);
        let mut warnings = Vec::new();
        let save = Save::read(&file, &mut warnings).unwrap();
        assert_eq!(save.player_name, "MAY");
        assert_eq!(save.money, 4242);
    }
}

#[test]
fn misplaced_section_is_corrupt_data() {
    let mut slot = default_slot(1, 0);
    // Put section 5's id where section 1 should be.
    let footer = SECTOR_SIZE + SECTOR_DATA_SIZE;
    slot[footer..footer + 2].copy_from_slice(&5u16.to_le_bytes());
    let file = slot;
    let mut warnings = Vec::new();
    assert_eq!(
        Save::read(&file, &mut warnings).unwrap_err(),
        LoadSaveError::CorruptData(Corruption::SectionId { expected: 1, actual: 5 })
    );

    let mut slot = default_slot(1, 0);
    slot[SECTOR_DATA_SIZE..SECTOR_DATA_SIZE + 2].copy_from_slice(&20u16.to_le_bytes());
    let file = slot;
    assert_eq!(
        Save::read(&file, &mut warnings).unwrap_err(),
        LoadSaveError::CorruptData(Corruption::InvalidSectionId(20))
    );
}

#[test]
fn unreadable_file_surfaces_first_error() {
    let mut warnings = Vec::new();
    assert_eq!(
        Save::read(&[0u8; 100], &mut warnings).unwrap_err(),
        LoadSaveError::Io { needed: SECTOR_SIZE, available: 100 }
    );
}

#[test]
fn only_readable_slot_is_used() {
    // The second slot's first sector lies past the end of a file of one slot.
    let file = default_slot(1, 77);
    let mut warnings = Vec::new();
    assert_eq!(Save::read(&file, &mut warnings).unwrap().money, 77);
    assert!(warnings.is_empty());
}

#[test]
fn sectors_read_in_sequence() {
    let file = save_file(default_slot(3, 1), default_slot(2, 1));
    let all = Sector::read_all(&file);
    assert_eq!(all.len(), 32);
    assert_eq!(all[1].as_ref().unwrap().id, 1);
    assert_eq!(all[15].as_ref().unwrap().counter, 2);

    let mut reader = SaveSectionReader::new();
    let mut count = 0;
    while let Some(r) = reader.next(&file) {
        assert!(r.is_ok());
        count += 1;
    }
    assert_eq!(count, 32);

    let short = vec![0u8; SECTOR_SIZE];
    let mut reader = SaveSectionReader::new();
    assert!(reader.next(&short).unwrap().is_ok());
    assert!(reader.next(&short).unwrap().is_err());
    assert_eq!(reader.remaining, 30);
    // Every later sector fails too, and the reader still ends.
    let mut failures = 0;
    while let Some(r) = reader.next(&short) {
        assert!(r.is_err());
        failures += 1;
    }
    assert_eq!(failures, 30);
}
