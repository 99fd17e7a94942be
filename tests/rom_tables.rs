use poke3::data::mapping::{map_egg_group, map_item_type, map_pocket, map_pokemon_type, Problem};
use poke3::data::model::{AbilityId as DataAbilityId, EggGroup, ItemId, ItemPocket, ItemType, PokemonType as DataType, Stats};
use poke3::data::shortened_names::{expand_name, name_hash};
use poke3::data::tables::{Named, RawBaseStats, RawPokemonName};
use poke3::data::model::Species as DataSpecies;
use poke3::rom::abilities::{AbilityId, AbilityTable};
use poke3::rom::items::ItemTable;
use poke3::rom::moves::MoveTable;
use poke3::rom::pokemon::{PokemonType, Species};
use poke3::rom::read::{read_pointer, read_string_list, RomError};

fn put_pointer(rom: &mut Vec<u8>, at: usize, target: u32) {
    rom[at..at + 4].copy_from_slice(&(0x0800_0000 + target).to_le_bytes());
}

#[test]
fn pointers_are_rebased() {
    let mut rom = vec![0u8; 16];
    put_pointer(&mut rom, 4, 0x1234);
    assert_eq!(read_pointer(&rom, 4), Ok(0x1234));
    assert_eq!(read_pointer(&rom, 13), Err(RomError::Eof { offset: 13, len: 4 }));
    rom[0..4].copy_from_slice(&0x0700_0000u32.to_le_bytes());
    assert_eq!(read_pointer(&rom, 0), Err(RomError::BadPointer(0x0700_0000)));
}

#[test]
fn string_lists_are_fixed_width() {
    let rom = [0xBB, 0xFF, 0, 0xBC, 0xBD, 0xFF];
    let names = read_string_list(&rom, 0, 2, 3).unwrap();
    assert_eq!(names, vec!["A".to_string(), "BC".to_string()]);
    assert_eq!(read_string_list(&rom, 1, 2, 3), Err(RomError::Eof { offset: 1, len: 6 }));
}

#[test]
fn ability_table_loads() {
    let start = 0x200usize;
    let mut rom = vec![0xFFu8; start + 255 * 17];
    put_pointer(&mut rom, 0x1C0, start as u32);
    rom[start + 17..start + 19].copy_from_slice(&[0xBB, 0xBC]);
    let t = AbilityTable::load(&rom).unwrap();
    assert_eq!(t.get_by_ability_id(AbilityId(1)).unwrap().name, "AB");
    assert_eq!(t.get_by_ability_id(AbilityId(0)).unwrap().name, "");
    assert!(t.get_by_ability_id(AbilityId(255)).is_none());
    rom.truncate(start + 10);
    assert_eq!(
        AbilityTable::load(&rom).unwrap_err(),
        RomError::Eof { offset: start as u64, len: 255 * 17 }
    );
}

#[test]
fn move_table_loads() {
    let start = 0x4F000usize;
    let mut rom = vec![0xFFu8; start + 0x380 * 13];
    put_pointer(&mut rom, 0x04EF84, start as u32);
    rom[start + 13 * 5] = 0xC7;
    let t = MoveTable::load(&rom).unwrap();
    assert_eq!(t.get_by_move_id(5).unwrap().name, "M");
    assert!(t.get_by_move_id(0x380).is_none());
}

#[test]
fn item_table_loads() {
    let start = 0x400usize;
    let mut rom = vec![0u8; start + 1268 * 0x2C];
    put_pointer(&mut rom, 0x1C8, start as u32);
    let at = start + 2 * 0x2C;
    rom[at..at + 2].copy_from_slice(&[0xC0, 0xFF]);
    rom[at + 14..at + 16].copy_from_slice(&2u16.to_le_bytes());
    rom[at + 16..at + 18].copy_from_slice(&300u16.to_le_bytes());
    let t = ItemTable::load(&rom).unwrap();
    let it = t.get_by_item_id(2).unwrap();
    assert_eq!(it.name, "F");
    assert_eq!(it.id, 2);
    assert_eq!(it.price, 300);
    assert!(t.get_by_item_id(1268).is_none());

    rom.truncate(start + 1267 * 0x2C + 10);
    assert_eq!(
        ItemTable::load(&rom).unwrap_err(),
        RomError::Eof { offset: (start + 1267 * 0x2C) as u64, len: 18 }
    );
}

#[test]
fn base_stats_in_display_order() {
    let mut rom = vec![0u8; 40];
    let o = 5;
    rom[o..o + 6].copy_from_slice(&[1, 2, 3, 4, 5, 6]);
    rom[o + 6] = 0x0a;
    rom[o + 7] = 0x09;
    rom[o + 8] = 45;
    rom[o + 9] = 64;
    // Effort yields HP=1, Atk=2, Def=3, Speed=0, SpA=1, SpD=2, two bits each.
    let evs: u16 = 1 | (2 << 2) | (3 << 4) | (0 << 6) | (1 << 8) | (2 << 10);
    rom[o + 10..o + 12].copy_from_slice(&evs.to_le_bytes());
    rom[o + 12..o + 14].copy_from_slice(&7u16.to_le_bytes());
    rom[o + 22] = 3;
    rom[o + 26] = 9;
    let s = Species::read_base_stats(&rom, o as u64).unwrap();
    assert_eq!(s.base_stats, [1, 2, 3, 5, 6, 4]);
    assert_eq!(s.evs, [1, 2, 3, 1, 2, 0]);
    assert_eq!(s.type1, PokemonType::Fire);
    assert_eq!(s.type2, Some(PokemonType::Unknown(9)));
    assert_eq!(s.catch_rate, 45);
    assert_eq!(s.exp, 64);
    assert_eq!(s.hold_item1, Some(7));
    assert_eq!(s.hold_item2, None);
    assert_eq!(s.ability1, AbilityId(3));
    assert_eq!(s.ability2, None);
    assert_eq!(s.hidden_ability, Some(AbilityId(9)));
    assert!(s.name.is_empty());
    assert_eq!(
        Species::read_base_stats(&rom, 20).unwrap_err(),
        RomError::Eof { offset: 20, len: 27 }
    );
}

#[test]
fn type_bytes() {
    assert_eq!(PokemonType::parse(0x17), PokemonType::Fairy);
    assert_eq!(PokemonType::parse(0x09), PokemonType::Unknown(9));
    assert_eq!(map_pokemon_type(0x11), DataType::Dark);
    assert_eq!(map_pokemon_type(0x09), DataType::Unknown);
}

#[test]
fn pockets_and_item_types() {
    assert_eq!(map_pocket(3).unwrap(), ItemPocket::PokeBalls);
    let e = map_pocket(6).unwrap_err();
    assert_eq!((e.field, e.problem), ("pocket", Problem::Pocket(6)));
    assert_eq!(map_item_type(0x03).unwrap(), ItemType::PpRecovery);
    assert_eq!(map_item_type(0x04).unwrap(), ItemType::StatBoostDrink);
    assert_eq!(map_item_type(0x18).unwrap(), ItemType::Mail);
    assert_eq!(map_item_type(0x19).unwrap_err().problem, Problem::ItemType(0x19));
}

#[test]
fn egg_groups() {
    assert_eq!(map_egg_group("g", 0).unwrap(), None);
    assert_eq!(map_egg_group("g", 1).unwrap(), Some(EggGroup::Monster));
    assert_eq!(map_egg_group("g", 0xF).unwrap(), Some(EggGroup::Undiscovered));
    let e = map_egg_group("egg_group2", 0x10).unwrap_err();
    assert_eq!((e.field, e.problem), ("egg_group2", Problem::EggGroup(0x10)));
}

#[test]
fn shortened_names_expand() {
    assert_eq!(name_hash(b"Fletchindr"), 0x4d);
    assert_eq!(name_hash(b"Blacphalon"), 0x2e);
    assert_eq!(expand_name(b"Fletchindr"), Some("Fletchinder"));
    assert_eq!(expand_name(b"Crabminble\0"), Some("Crabominable"));
    assert_eq!(expand_name(b"Pikachu\0\0\0"), None);
}

fn raw_stats() -> RawBaseStats {
    let mut d = [0u8; 28];
    d[..6].copy_from_slice(&[1, 2, 3, 4, 5, 6]);
    d[6] = 0x0b;
    d[7] = 0x0b;
    d[10..12].copy_from_slice(&(3u16 << 6).to_le_bytes());
    d[12..14].copy_from_slice(&5u16.to_le_bytes());
    d[20] = 1;
    d[21] = 1;
    d[22] = 4;
    RawBaseStats::from_bytes(&d)
}

#[test]
fn species_converts_from_raw() {
    // "PIKA", terminated.
    let name = vec![0xCA, 0xC3, 0xC5, 0xBB, 0xFF, 0, 0, 0, 0, 0, 0];
    let s = DataSpecies::try_from(Named { name: RawPokemonName(name), value: raw_stats() }).unwrap();
    assert_eq!(s.ingame_name, "PIKA");
    assert_eq!(s.original_name, None);
    assert_eq!(s.base_stats, Stats { hp: 1, atk: 2, def: 3, spa: 5, spd: 6, spe: 4 });
    assert_eq!(s.type1, DataType::Water);
    assert_eq!(s.type2, None);
    assert_eq!(s.ev_yield.spe, 3);
    assert_eq!(s.ev_yield.hp, 0);
    assert_eq!(s.hold_item1, Some(ItemId(5)));
    assert_eq!(s.hold_item2, None);
    assert_eq!(s.egg_group1, Some(EggGroup::Monster));
    assert_eq!(s.egg_group2, None);
    assert_eq!(s.ability1, Some(DataAbilityId(4)));
    assert_eq!(s.ability2, None);
}

#[test]
fn species_conversion_errors() {
    let name = vec![0xBC, 0x0A, 0xFF, 0, 0, 0, 0, 0, 0, 0, 0];
    let e = DataSpecies::try_from(Named { name: RawPokemonName(name), value: raw_stats() })
        .unwrap_err();
    assert_eq!(e.field, "name");
    assert_eq!(e.problem, Problem::Text { invalid: 0x0A, index: 1 });

    let mut v = raw_stats();
    v.egg_group2 = 0x20;
    let e = DataSpecies::try_from(Named { name: RawPokemonName(vec![0xFF; 11]), value: v })
        .unwrap_err();
    assert_eq!((e.field, e.problem), ("egg_group2", Problem::EggGroup(0x20)));
}

#[test]
fn colliding_hash_expands_a_plain_name() {
    // The bytes of "BULBA" happen to share a hash with a shortened name.
    let name = vec![0xBC, 0xCF, 0xC6, 0xBC, 0xBB, 0xFF, 0, 0, 0, 0, 0];
    let s = DataSpecies::try_from(Named { name: RawPokemonName(name), value: raw_stats() }).unwrap();
    assert_eq!(s.original_name, Some("Fletchinder".to_string()));
}
