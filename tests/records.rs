use poke3::encoding::{decode_byte, parse_string, parse_string_lossy, Encoding};
use poke3::pokedex::{NationalDexId, SpeciesId};
use poke3::save::pokemon::{AbilityIndex, Pokemon, RECORD_SIZE};

#[test]
fn charmap_lookups() {
    assert_eq!(decode_byte(0xBB), Encoding::Char('A'));
    assert_eq!(decode_byte(0xD5), Encoding::Char('a'));
    assert_eq!(decode_byte(0xA1), Encoding::Char('0'));
    assert_eq!(decode_byte(0x00), Encoding::Char(' '));
    assert_eq!(decode_byte(0x01), Encoding::Char('\u{C0}'));
    assert_eq!(decode_byte(0xFE), Encoding::Char('\n'));
    assert_eq!(decode_byte(0xFF), Encoding::End);
    assert_eq!(decode_byte(0x0A), Encoding::Invalid);
}

#[test]
fn strict_decode_stops_at_terminator() {
    assert_eq!(parse_string(&[0xC2, 0xD9, 0xFF, 0xBB]).unwrap(), "He");
    assert_eq!(parse_string(&[0xC2, 0xD9]).unwrap(), "He");
    assert_eq!(parse_string(&[]).unwrap(), "");
}

#[test]
fn strict_decode_reports_invalid_byte() {
    let e = parse_string(&[0xC2, 0xD9, 0x0A, 0xBB]).unwrap_err();
    assert_eq!(e.valid_string, "He");
    assert_eq!(e.invalid, 0x0A);
    assert_eq!(e.error_index, 2);
}

#[test]
fn lossy_decode_substitutes_and_stops() {
    assert_eq!(parse_string_lossy(&[0xC2, 0x0A, 0xD9, 0xFF, 0xBB]), "H\u{FFFD}e");
    assert_eq!(parse_string_lossy(&[0x0A, 0x0A]), "\u{FFFD}\u{FFFD}");
    assert_eq!(parse_string_lossy(&[0xFF, 0xBB]), "");
    assert_eq!(parse_string_lossy(&[]), "");
}

fn record() -> Vec<u8> {
    let mut d = vec![0u8; RECORD_SIZE];
    d[8..12].copy_from_slice(&[0xCA, 0xC3, 0xC5, 0xBF]); // "PIKE"
    d[12] = 0xFF;
    d[20..23].copy_from_slice(&[0xBB, 0xCD, 0xC2]); // "ASH"
    d[23] = 0xFF;
    d[27] = 0b0000_0101;
    d[32..34].copy_from_slice(&25u16.to_le_bytes());
    d[34..36].copy_from_slice(&13u16.to_le_bytes());
    d[36..40].copy_from_slice(&123_456u32.to_le_bytes());
    d[40] = 0b11_10_01_00;
    d[41] = 70;
    d[42] = 4;
    for i in 0..4 {
        d[44 + 2 * i..46 + 2 * i].copy_from_slice(&(100 + i as u16).to_le_bytes());
        d[52 + i] = 10 + i as u8;
    }
    // Effort values in storage order: HP, Atk, Def, Speed, SpA, SpD.
    d[56..62].copy_from_slice(&[1, 2, 3, 4, 5, 6]);
    // Individual values 1..6 in storage order, then the egg bit.
    let ivs: u32 = 1 | (2 << 5) | (3 << 10) | (4 << 15) | (5 << 20) | (6 << 25) | (1 << 30);
    d[72..76].copy_from_slice(&ivs.to_le_bytes());
    d[84] = 50;
    d[86..88].copy_from_slice(&77u16.to_le_bytes());
    for (k, v) in [10u16, 20, 30, 40, 50, 60].iter().enumerate() {
        d[88 + 2 * k..90 + 2 * k].copy_from_slice(&v.to_le_bytes());
    }
    d
}

#[test]
fn record_stats_in_display_order() {
    let p = Pokemon::from_bytes(&record());
    assert_eq!(p.evs, [1, 2, 3, 5, 6, 4]);
    assert_eq!(p.ivs, [1, 2, 3, 5, 6, 4]);
    assert_eq!(p.stats, [10, 20, 30, 50, 60, 40]);
}

#[test]
fn record_fields() {
    let p = Pokemon::from_bytes(&record());
    assert_eq!(p.nickname, "PIKE");
    assert_eq!(p.otname, "ASH");
    assert_eq!(p.markings, [true, false, true, false]);
    assert_eq!(p.species, SpeciesId(25));
    assert_eq!(p.item, 13);
    assert_eq!(p.experience, 123_456);
    assert_eq!(p.friendship, 70);
    assert_eq!(p.pokeball, 4);
    for i in 0..4 {
        assert_eq!(p.moves[i].id, 100 + i as u16);
        assert_eq!(p.moves[i].pp, 10 + i as u8);
        assert_eq!(p.moves[i].pp_bonus, i as u8);
    }
    assert!(p.is_egg);
    assert_eq!(p.ability, AbilityIndex::First);
    assert_eq!(p.level, 50);
    assert_eq!(p.current_hp, 77);
    assert_eq!(p.condition, 0);
}

#[test]
fn record_hidden_ability_flag() {
    let mut d = record();
    d[75] = 0x80;
    let p = Pokemon::from_bytes(&d);
    assert_eq!(p.ability, AbilityIndex::Hidden);
    assert!(!p.is_egg);
}

#[test]
fn ids_from_integers() {
    assert_eq!(SpeciesId::from(7), SpeciesId(7));
    assert_eq!(NationalDexId::from(9), NationalDexId(9));
}
