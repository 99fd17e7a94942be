//! The table of ability names.
use vstd::prelude::*;
use super::read::{pointed_string_list, read_pointer, read_string_list, RomError};

verus! {

/// Abilities in the table.
pub const NUM_ABILITIES: usize = 0xFF;

/// Characters of an ability name, not counting its terminator.
pub const ABILITY_NAME_LENGTH: usize = 16;

/// Where the pointer to the ability names is stored.
pub const ABILITY_NAMES_OFFSET: u64 = 0x0001C0;

/// An ability by its index in the table.
#[derive(Clone, Copy, Debug, PartialEq, Eq, Hash, Structural)]
pub struct AbilityId(pub u8);

/// One ability.
#[derive(Debug, Clone)]
pub struct Ability {
    pub name: String,
}

/// The abilities, by index.
#[derive(Debug, Clone)]
pub struct AbilityTable {
    pub abilities: Vec<Ability>,
}

impl View for AbilityTable {
    type V = Seq<Seq<char>>;

    open spec fn view(&self) -> Seq<Seq<char>> {
        self.abilities@.map_values(|a: Ability| a.name@)
    }
}

impl AbilityTable {
    /// Reads the ability names from the image.
    pub fn load(rom: &[u8]) -> (r: Result<AbilityTable, RomError>)
        ensures
            match r {
                Ok(t) => pointed_string_list(
                    rom@,
                    ABILITY_NAMES_OFFSET as int,
                    NUM_ABILITIES as int,
                    ABILITY_NAME_LENGTH + 1,
                ) == Ok::<Seq<Seq<char>>, RomError>(t@),
                Err(e) => pointed_string_list(
                    rom@,
                    ABILITY_NAMES_OFFSET as int,
                    NUM_ABILITIES as int,
                    ABILITY_NAME_LENGTH + 1,
                ) == Err::<Seq<Seq<char>>, RomError>(e),
            },
    {
        let ptr = read_pointer(rom, ABILITY_NAMES_OFFSET)?;
        let names = read_string_list(rom, ptr, NUM_ABILITIES, ABILITY_NAME_LENGTH + 1)?;
        let mut abilities: Vec<Ability> = Vec::new();
        let mut i: usize = 0;
        while i < names.len()
            invariant
                i <= names@.len(),
                abilities@.len() == i,
                forall|k: int| 0 <= k < i ==> #[trigger] abilities@[k].name@ == names@[k]@,
            decreases names@.len() - i,
        {
            abilities.push(Ability { name: names[i].clone() });
            i += 1;
        }
        let t = AbilityTable { abilities };
        assert(t@ =~= names@.map_values(|s: String| s@));
        Ok(t)
    }

    /// The ability with index `ability_id`, if the table has one.
    pub fn get_by_ability_id(&self, ability_id: AbilityId) -> (r: Option<&Ability>)
        ensures
            match r {
                Some(a) => ability_id.0 < self.abilities@.len() && *a == self.abilities@[ability_id.0 as int],
                None => ability_id.0 >= self.abilities@.len(),
            },
    {
        let i = ability_id.0 as usize;
        if i < self.abilities.len() {
            Some(&self.abilities[i])
        } else {
            None
        }
    }
}

} // verus!
