use poke3::data::mapping::Problem;
use poke3::data::model::{ItemPocket, ItemType};
use poke3::data::read::{read_rom, ReadRomError, ReadTableError};
use poke3::pokedex::{NationalDexId, SpeciesId};
use poke3::rom::pokemon::{NationalDex, PokemonTable};
use poke3::rom::read::RomError;
use poke3::rom::Rom as SaveToolRom;

fn put_pointer(rom: &mut [u8], at: usize, target: usize) {
    rom[at..at + 4].copy_from_slice(&(0x0800_0000u32 + target as u32).to_le_bytes());
}

fn encode(name: &str) -> Vec<u8> {
    name.bytes()
        .map(|b| match b {
            b'A'..=b'Z' => 0xBB + (b - b'A'),
            b'a'..=b'z' => 0xD5 + (b - b'a'),
            _ => 0x00,
        })
        .collect()
}

/// An image for the save tool's tables: abilities, items, moves and species.
fn tool_image(species_names: &[(usize, &str)]) -> Vec<u8> {
    let abilities = 0x1000;
    let items = abilities + 255 * 17;
    let stats = items + 1268 * 0x2C;
    let names = stats + 1268 * 27;
    let moves = 0x50000;
    let mut rom = vec![0xFFu8; moves + 0x380 * 13];
    put_pointer(&mut rom, 0x1C0, abilities);
    put_pointer(&mut rom, 0x1C8, items);
    put_pointer(&mut rom, 0x1BC, stats);
    put_pointer(&mut rom, 0x144, names);
    put_pointer(&mut rom, 0x04EF84, moves);
    for &(i, n) in species_names {
        let at = names + i * 11;
        let e = encode(n);
        rom[at..at + e.len()].copy_from_slice(&e);
        rom[at + e.len()] = 0xFF;
        rom[stats + i * 27] = i as u8;
    }
    rom
}

fn dex() -> NationalDex {
    NationalDex {
        names: vec!["B".to_string(), "A".to_string(), "A".to_string(), "Z".to_string()],
        ignored: vec!["C".to_string()],
        shortened: vec![("Q".to_string(), "B".to_string())],
    }
}

#[test]
fn species_link_to_national_numbers() {
    let rom = tool_image(&[(1, "A"), (2, "B"), (3, "C"), (4, "Q"), (5, "A")]);
    let t = PokemonTable::load(&rom, &dex()).unwrap();
    assert_eq!(t.species.len(), 1268);
    assert_eq!(t.get_by_species_id(SpeciesId(4)).unwrap().name, "Q");
    assert_eq!(t.get_by_species_id(SpeciesId(4)).unwrap().base_stats[0], 4);
    // The last species whose lookup name matches wins; a shortened name counts as its
    // full spelling.
    assert_eq!(t.national_dex_to_species_id(NationalDexId(1)), Some(SpeciesId(4)));
    assert_eq!(t.national_dex_to_species_id(NationalDexId(2)), Some(SpeciesId(5)));
    // A repeated national name links only its first number.
    assert_eq!(t.national_dex_to_species_id(NationalDexId(3)), None);
    assert_eq!(t.national_dex_to_species_id(NationalDexId(4)), None);
    assert_eq!(t.species_to_natinal_dex_id(SpeciesId(4)), Some(NationalDexId(1)));
    assert_eq!(t.species_to_natinal_dex_id(SpeciesId(5)), Some(NationalDexId(2)));
    assert_eq!(t.species_to_natinal_dex_id(SpeciesId(2)), None);
    // An ignored name links nothing.
    assert_eq!(t.species_to_natinal_dex_id(SpeciesId(3)), None);
}

#[test]
fn tool_tables_load_together() {
    let rom = tool_image(&[(1, "A")]);
    let r = SaveToolRom::load(&rom, &dex()).unwrap();
    assert_eq!(r.abilities.abilities.len(), 255);
    assert_eq!(r.items.items.len(), 1268);
    assert_eq!(r.moves.moves.len(), 0x380);
    assert_eq!(r.pokemon.species.len(), 1268);

    let short = &rom[..0x1000];
    assert_eq!(
        SaveToolRom::load(short, &dex()).unwrap_err(),
        RomError::Eof { offset: 0x1000, len: 255 * 17 }
    );
}

/// An image in the extended layout.
fn extended_image() -> Vec<u8> {
    let abilities = 0x1000;
    let items = abilities + 255 * 17;
    let names = items + 250 * 44;
    let stats = names + 1268 * 11;
    let mut rom = vec![0xFFu8; stats + 1268 * 28];
    put_pointer(&mut rom, 0x1C0, abilities);
    put_pointer(&mut rom, 0x1C8, items);
    put_pointer(&mut rom, 0x144, names);
    put_pointer(&mut rom, 0x1BC, stats);
    // Ability 3 is named "Blaze".
    let e = encode("Blaze");
    rom[abilities + 3 * 17..abilities + 3 * 17 + 5].copy_from_slice(&e);
    for k in 0..250 {
        let at = items + k * 44;
        rom[at + 16..at + 18].copy_from_slice(&(k as u16 * 10).to_le_bytes());
        rom[at + 26] = 1;
        rom[at + 27] = 4;
    }
    for k in 0..1268 {
        let at = stats + k * 28;
        for b in rom[at..at + 28].iter_mut() {
            *b = 0;
        }
        rom[at] = (k % 256) as u8;
        rom[at + 20] = 1;
        rom[at + 21] = 1;
    }
    rom
}

#[test]
fn extended_tables_decode() {
    let rom = extended_image();
    let r = read_rom(&rom).unwrap();
    assert_eq!(r.abilities.len(), 254);
    assert_eq!(r.abilities[2].name, "Blaze");
    assert_eq!(r.items.len(), 249);
    assert_eq!(r.items[0].price, 10);
    assert_eq!(r.items[0].pocket, ItemPocket::Items);
    assert_eq!(r.items[0].item_type, ItemType::StatBoostDrink);
    assert!(r.moves.is_empty());
    assert_eq!(r.species.len(), 1267);
    assert_eq!(r.species[0].base_stats.hp, 1);
    assert_eq!(r.species[0].ingame_name, "");
}

#[test]
fn extended_tables_report_first_failure() {
    let mut rom = extended_image();
    let items = 0x1000 + 255 * 17;
    rom[items + 5 * 44 + 26] = 9;
    match read_rom(&rom) {
        Err(ReadRomError::Validation(e)) => {
            assert_eq!(e.field, "pocket");
            assert_eq!(e.problem, Problem::Pocket(9));
        }
        other => panic!("unexpected {:?}", other.map(|_| ())),
    }

    let rom = extended_image();
    let cut = &rom[..0x1000 + 255 * 17 + 100];
    match read_rom(cut) {
        Err(ReadRomError::ReadTable(ReadTableError { table, index, err })) => {
            assert_eq!(table, "gItems");
            assert_eq!(index, 2);
            assert_eq!(err, RomError::Eof { offset: (0x1000 + 255 * 17 + 2 * 44) as u64, len: 44 });
        }
        other => panic!("unexpected {:?}", other.map(|_| ())),
    }
}
