//! Name and stat tables read from the cartridge image.
pub mod abilities;
pub mod items;
pub mod moves;
pub mod pokemon;
pub mod read;

use vstd::prelude::*;
use abilities::{AbilityTable, ABILITY_NAMES_OFFSET, ABILITY_NAME_LENGTH, NUM_ABILITIES};
use items::{item_table, Item, ItemTable, ItemView};
use moves::{MoveTable, MOVE_NAMES_OFFSET, MOVE_NAME_LENGTH, NUM_MOVES};
use pokemon::{pokemon_table_error, pokemon_table_loaded, NationalDex, PokemonTable};
use read::{pointed_string_list, RomError};

verus! {

/// The tables read from the image.
#[derive(Debug, Clone)]
pub struct Rom {
    pub abilities: AbilityTable,
    pub items: ItemTable,
    pub moves: MoveTable,
    pub pokemon: PokemonTable,
}

/// The ability names that the image holds.
pub open spec fn ability_names(rom: Seq<u8>) -> Result<Seq<Seq<char>>, RomError> {
    pointed_string_list(rom, ABILITY_NAMES_OFFSET as int, NUM_ABILITIES as int, ABILITY_NAME_LENGTH + 1)
}

/// The move names that the image holds.
pub open spec fn move_names(rom: Seq<u8>) -> Result<Seq<Seq<char>>, RomError> {
    pointed_string_list(rom, MOVE_NAMES_OFFSET as int, NUM_MOVES as int, MOVE_NAME_LENGTH + 1)
}

/// Why the tables cannot be read from the image, trying them in the order abilities,
/// items, moves, species; none if they all can.
pub open spec fn rom_error(rom: Seq<u8>) -> Option<RomError> {
    match ability_names(rom) {
        Err(e) => Some(e),
        Ok(_) => match item_table(rom) {
            Err(e) => Some(e),
            Ok(_) => match move_names(rom) {
                Err(e) => Some(e),
                Ok(_) => pokemon_table_error(rom),
            },
        },
    }
}

impl Rom {
    /// Reads all tables from the image.
    pub fn load(rom: &[u8], dex: &NationalDex) -> (r: Result<Rom, RomError>)
        requires
            dex.names@.len() < 0xFFFF,
        ensures
            match r {
                Err(e) => rom_error(rom@) == Some(e),
                Ok(t) => {
                    &&& rom_error(rom@) is None
                    &&& ability_names(rom@) == Ok::<Seq<Seq<char>>, RomError>(t.abilities@)
                    &&& item_table(rom@) == Ok::<Seq<ItemView>, RomError>(
                        t.items.items@.map_values(|it: Item| it@),
                    )
                    &&& move_names(rom@) == Ok::<Seq<Seq<char>>, RomError>(t.moves@)
                    &&& pokemon_table_loaded(rom@, dex, t.pokemon)
                },
            },
    {
        let abilities = AbilityTable::load(rom)?;
        let items = ItemTable::load(rom)?;
        let moves = MoveTable::load(rom)?;
        let pokemon = PokemonTable::load(rom, dex)?;
        Ok(Rom { abilities, items, moves, pokemon })
    }
}

} // verus!
