//! Checking and mapping the raw fields of the extended image's tables.
use vstd::prelude::*;
use crate::encoding::{parse_string, strict_text, EncodingError, StrictText};
use super::model::{EggGroup, ItemPocket, ItemType, PokemonType};

verus! {

/// What is wrong with a raw field.
#[derive(Debug, Clone, Copy, PartialEq, Eq, Structural)]
pub enum Problem {
    /// A pocket number outside 1 to 5.
    Pocket(u8),
    /// An item type number with no known kind.
    ItemType(u8),
    /// An egg group number above 15.
    EggGroup(u8),
    /// A text byte at `index` that stands for no character.
    Text { invalid: u8, index: usize },
}

/// A raw field that failed its check.
#[derive(Debug)]
pub struct ValidationError {
    /// The field's name.
    pub field: &'static str,
    /// What is wrong with it.
    pub problem: Problem,
}

impl ValidationError {
    /// The error for field `field`.
    pub fn new(field: &'static str, problem: Problem) -> (r: ValidationError)
        ensures
            r.field == field,
            r.problem == problem,
    {
        ValidationError { field, problem }
    }

    /// The error for a text field whose strict decode failed.
    pub fn from_display(field: &'static str, e: EncodingError) -> (r: ValidationError)
        ensures
            r.field == field,
            r.problem == (Problem::Text { invalid: e.invalid, index: e.error_index }),
    {
        ValidationError { field, problem: Problem::Text { invalid: e.invalid, index: e.error_index } }
    }
}

/// The pocket that a raw pocket number stands for.
pub open spec fn pocket_of(raw: u8) -> Option<ItemPocket> {
    match raw {
        1 => Some(ItemPocket::Items),
        2 => Some(ItemPocket::KeyItems),
        3 => Some(ItemPocket::PokeBalls),
        4 => Some(ItemPocket::TmCase),
        5 => Some(ItemPocket::BerryPouch),
        _ => None,
    }
}

/// Maps a raw pocket number, refusing numbers outside 1 to 5.
pub fn map_pocket(raw: u8) -> (r: Result<ItemPocket, ValidationError>)
    ensures
        match r {
            Ok(p) => pocket_of(raw) == Some(p),
            Err(e) => pocket_of(raw) is None && e.field == "pocket" && e.problem == Problem::Pocket(raw),
        },
{
    match raw {
        1 => Ok(ItemPocket::Items),
        2 => Ok(ItemPocket::KeyItems),
        3 => Ok(ItemPocket::PokeBalls),
        4 => Ok(ItemPocket::TmCase),
        5 => Ok(ItemPocket::BerryPouch),
        other => Err(ValidationError::new("pocket", Problem::Pocket(other))),
    }
}

/// The kind that a raw item type number stands for: the kinds are numbered in order
/// from 0.
pub open spec fn item_type_of(raw: u8) -> Option<ItemType> {
    match raw {
        0x00 => Some(ItemType::FieldUse),
        0x01 => Some(ItemType::HealthRecovery),
        0x02 => Some(ItemType::StatusRecovery),
        0x03 => Some(ItemType::PpRecovery),
        0x04 => Some(ItemType::StatBoostDrink),
        0x05 => Some(ItemType::StatBoostWing),
        0x06 => Some(ItemType::EvolutionStone),
        0x07 => Some(ItemType::EvolutionItem),
        0x08 => Some(ItemType::BattleItem),
        0x09 => Some(ItemType::Flute),
        0x0A => Some(ItemType::StatBoostHeldItem),
        0x0B => Some(ItemType::HeldItem),
        0x0C => Some(ItemType::Gem),
        0x0D => Some(ItemType::Plate),
        0x0E => Some(ItemType::Memory),
        0x0F => Some(ItemType::Drive),
        0x10 => Some(ItemType::Incense),
        0x11 => Some(ItemType::MegaStone),
        0x12 => Some(ItemType::ZCrystal),
        0x13 => Some(ItemType::Nectar),
        0x14 => Some(ItemType::Sellable),
        0x15 => Some(ItemType::Relic),
        0x16 => Some(ItemType::Shard),
        0x17 => Some(ItemType::Fossil),
        0x18 => Some(ItemType::Mail),
        _ => None,
    }
}

/// Maps a raw item type number, refusing numbers with no known kind.
pub fn map_item_type(raw: u8) -> (r: Result<ItemType, ValidationError>)
    ensures
        match r {
            Ok(t) => item_type_of(raw) == Some(t),
            Err(e) => item_type_of(raw) is None && e.field == "type" && e.problem == Problem::ItemType(raw),
        },
{
    let t = match raw {
        0x00 => Some(ItemType::FieldUse),
        0x01 => Some(ItemType::HealthRecovery),
        0x02 => Some(ItemType::StatusRecovery),
        0x03 => Some(ItemType::PpRecovery),
        0x04 => Some(ItemType::StatBoostDrink),
        0x05 => Some(ItemType::StatBoostWing),
        0x06 => Some(ItemType::EvolutionStone),
        0x07 => Some(ItemType::EvolutionItem),
        0x08 => Some(ItemType::BattleItem),
        0x09 => Some(ItemType::Flute),
        0x0A => Some(ItemType::StatBoostHeldItem),
        0x0B => Some(ItemType::HeldItem),
        0x0C => Some(ItemType::Gem),
        0x0D => Some(ItemType::Plate),
        0x0E => Some(ItemType::Memory),
        0x0F => Some(ItemType::Drive),
        0x10 => Some(ItemType::Incense),
        0x11 => Some(ItemType::MegaStone),
        0x12 => Some(ItemType::ZCrystal),
        0x13 => Some(ItemType::Nectar),
        0x14 => Some(ItemType::Sellable),
        0x15 => Some(ItemType::Relic),
        0x16 => Some(ItemType::Shard),
        0x17 => Some(ItemType::Fossil),
        0x18 => Some(ItemType::Mail),
        _ => None,
    };
    match t {
        Some(t) => Ok(t),
        None => Err(ValidationError::new("type", Problem::ItemType(raw))),
    }
}

/// The type that a raw type byte stands for.
pub open spec fn pokemon_type_of(raw: u8) -> PokemonType {
    match raw {
        0x00 => PokemonType::Normal,
        0x01 => PokemonType::Fighting,
        0x02 => PokemonType::Flying,
        0x03 => PokemonType::Poison,
        0x04 => PokemonType::Ground,
        0x05 => PokemonType::Rock,
        0x06 => PokemonType::Bug,
        0x07 => PokemonType::GhostType,
        0x08 => PokemonType::Steel,
        0x0a => PokemonType::Fire,
        0x0b => PokemonType::Water,
        0x0c => PokemonType::Grass,
        0x0d => PokemonType::Electric,
        0x0e => PokemonType::Psychic,
        0x0f => PokemonType::Ice,
        0x10 => PokemonType::Dragon,
        0x11 => PokemonType::Dark,
        0x17 => PokemonType::Fairy,
        _ => PokemonType::Unknown,
    }
}

/// Maps a raw type byte; bytes with no known type give `Unknown`.
pub fn map_pokemon_type(raw: u8) -> (r: PokemonType)
    ensures
        r == pokemon_type_of(raw),
{
    match raw {
        0x00 => PokemonType::Normal,
        0x01 => PokemonType::Fighting,
        0x02 => PokemonType::Flying,
        0x03 => PokemonType::Poison,
        0x04 => PokemonType::Ground,
        0x05 => PokemonType::Rock,
        0x06 => PokemonType::Bug,
        0x07 => PokemonType::GhostType,
        0x08 => PokemonType::Steel,
        0x0a => PokemonType::Fire,
        0x0b => PokemonType::Water,
        0x0c => PokemonType::Grass,
        0x0d => PokemonType::Electric,
        0x0e => PokemonType::Psychic,
        0x0f => PokemonType::Ice,
        0x10 => PokemonType::Dragon,
        0x11 => PokemonType::Dark,
        0x17 => PokemonType::Fairy,
        _ => PokemonType::Unknown,
    }
}

/// The egg group that a raw number stands for: 0 is none, 1 to 15 the groups in order.
pub open spec fn egg_group_of(raw: u8) -> Option<Option<EggGroup>> {
    match raw {
        0x0 => Some(None),
        0x1 => Some(Some(EggGroup::Monster)),
        0x2 => Some(Some(EggGroup::Water1)),
        0x3 => Some(Some(EggGroup::Bug)),
        0x4 => Some(Some(EggGroup::Flying)),
        0x5 => Some(Some(EggGroup::Field)),
        0x6 => Some(Some(EggGroup::Fairy)),
        0x7 => Some(Some(EggGroup::Grass)),
        0x8 => Some(Some(EggGroup::HumanLike)),
        0x9 => Some(Some(EggGroup::Water3)),
        0xA => Some(Some(EggGroup::Mineral)),
        0xB => Some(Some(EggGroup::Amorphous)),
        0xC => Some(Some(EggGroup::Water2)),
        0xD => Some(Some(EggGroup::Ditto)),
        0xE => Some(Some(EggGroup::Dragon)),
        0xF => Some(Some(EggGroup::Undiscovered)),
        _ => None,
    }
}

/// Maps a raw egg group number, refusing numbers above 15.
pub fn map_egg_group(field_name: &'static str, raw: u8) -> (r: Result<
    Option<EggGroup>,
    ValidationError,
>)
    ensures
        match r {
            Ok(g) => egg_group_of(raw) == Some(g),
            Err(e) => egg_group_of(raw) is None && e.field == field_name && e.problem
                == Problem::EggGroup(raw),
        },
{
    let g = match raw {
        0x0 => Some(None),
        0x1 => Some(Some(EggGroup::Monster)),
        0x2 => Some(Some(EggGroup::Water1)),
        0x3 => Some(Some(EggGroup::Bug)),
        0x4 => Some(Some(EggGroup::Flying)),
        0x5 => Some(Some(EggGroup::Field)),
        0x6 => Some(Some(EggGroup::Fairy)),
        0x7 => Some(Some(EggGroup::Grass)),
        0x8 => Some(Some(EggGroup::HumanLike)),
        0x9 => Some(Some(EggGroup::Water3)),
        0xA => Some(Some(EggGroup::Mineral)),
        0xB => Some(Some(EggGroup::Amorphous)),
        0xC => Some(Some(EggGroup::Water2)),
        0xD => Some(Some(EggGroup::Ditto)),
        0xE => Some(Some(EggGroup::Dragon)),
        0xF => Some(Some(EggGroup::Undiscovered)),
        _ => None,
    };
    match g {
        Some(g) => Ok(g),
        None => Err(ValidationError::new(field_name, Problem::EggGroup(raw))),
    }
}

/// The error for text field `field` whose bytes `raw` fail a strict decode.
pub open spec fn text_error(field: &'static str, raw: Seq<u8>) -> ValidationError {
    let index = strict_text(raw)->index;
    ValidationError {
        field: field,
        problem: Problem::Text { invalid: raw[index], index: index as usize },
    }
}

/// Decodes a text field strictly, naming the field in the error.
pub fn parse_field(field: &'static str, raw: &[u8]) -> (r: Result<String, ValidationError>)
    ensures
        match r {
            Ok(s) => strict_text(raw@) == StrictText::Text(s@),
            Err(e) => strict_text(raw@) is Failed && e == text_error(field, raw@),
        },
{
    match parse_string(raw) {
        Ok(s) => Ok(s),
        Err(e) => Err(ValidationError::from_display(field, e)),
    }
}

} // verus!
