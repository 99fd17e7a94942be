//! Raw records of the extended image's tables and their conversion to game data.
use vstd::prelude::*;
use crate::bytes::{le_u16, read_u16_le};
use crate::encoding::{strict_text, StrictText};
use super::mapping::{
    egg_group_of, map_egg_group, map_pokemon_type, parse_field, pokemon_type_of, text_error,
    Problem, ValidationError,
};
use super::model::{AbilityId, ItemId, Species, Stats};
use super::shortened_names::{expand_name, full_name_for, name_hash_of};

verus! {

/// Bytes of a stored species name.
pub const POKEMON_NAME_SIZE: usize = 11;

/// Bytes of a base-stats record.
pub const BASE_STATS_RECORD_SIZE: usize = 28;

/// A stored species name: eleven bytes of encoded text.
pub struct RawPokemonName(pub Vec<u8>);

/// A base-stats record, field by field, with the stats in storage order.
#[derive(Debug, Clone, Copy, PartialEq, Eq, Structural)]
pub struct RawBaseStats {
    pub base_hp: u8,
    pub base_atk: u8,
    pub base_def: u8,
    pub base_spe: u8,
    pub base_spa: u8,
    pub base_spd: u8,
    pub type1: u8,
    pub type2: u8,
    pub catch_rate: u8,
    pub exp: u8,
    pub evs: u16,
    pub item1: u16,
    pub item2: u16,
    pub gender_ratio: u8,
    pub egg_cycles: u8,
    pub friendship: u8,
    pub growth_rate: u8,
    pub egg_group1: u8,
    pub egg_group2: u8,
    pub ability1: u8,
    pub ability2: u8,
    pub hidden_ability: u8,
}

/// The base-stats record stored at the start of `d`.
pub open spec fn base_stats_from(d: Seq<u8>) -> RawBaseStats {
    RawBaseStats {
        base_hp: d[0],
        base_atk: d[1],
        base_def: d[2],
        base_spe: d[3],
        base_spa: d[4],
        base_spd: d[5],
        type1: d[6],
        type2: d[7],
        catch_rate: d[8],
        exp: d[9],
        evs: le_u16(d, 10),
        item1: le_u16(d, 12),
        item2: le_u16(d, 14),
        gender_ratio: d[16],
        egg_cycles: d[17],
        friendship: d[18],
        growth_rate: d[19],
        egg_group1: d[20],
        egg_group2: d[21],
        ability1: d[22],
        ability2: d[23],
        hidden_ability: d[26],
    }
}

impl RawBaseStats {
    /// Reads the base-stats record stored at the start of `d`.
    pub fn from_bytes(d: &[u8]) -> (r: RawBaseStats)
        requires
            d@.len() >= BASE_STATS_RECORD_SIZE,
        ensures
            r == base_stats_from(d@),
    {
        RawBaseStats {
            base_hp: d[0],
            base_atk: d[1],
            base_def: d[2],
            base_spe: d[3],
            base_spa: d[4],
            base_spd: d[5],
            type1: d[6],
            type2: d[7],
            catch_rate: d[8],
            exp: d[9],
            evs: read_u16_le(d, 10),
            item1: read_u16_le(d, 12),
            item2: read_u16_le(d, 14),
            gender_ratio: d[16],
            egg_cycles: d[17],
            friendship: d[18],
            growth_rate: d[19],
            egg_group1: d[20],
            egg_group2: d[21],
            ability1: d[22],
            ability2: d[23],
            hidden_ability: d[26],
        }
    }
}

/// A record paired with its name from a parallel table.
pub struct Named<T, U> {
    pub name: T,
    pub value: U,
}

/// A species' stored name and base stats.
pub type RawPokemon = Named<RawPokemonName, RawBaseStats>;

/// The 2-bit effort yield at bits `lo + 1` and `lo` of a packed word.
pub open spec fn ev_bits(raw: u16, lo: u16) -> u8 {
    ((raw >> lo) & 0x3) as u8
}

fn unpack_ev_bits(raw: u16, lo: u16) -> (r: u8)
    requires
        lo < 16,
    ensures
        r == ev_bits(raw, lo),
{
    let v = (raw >> lo) & 0x3;
    assert(v < 4) by (bit_vector)
        requires
            v == (raw >> lo) & 0x3,
    ;
    v as u8
}

/// An ability id, with 0 standing for none.
pub open spec fn ability_id_of(raw: u8) -> Option<AbilityId> {
    if raw == 0 {
        None
    } else {
        Some(AbilityId(raw))
    }
}

/// An item id, with 0 standing for none.
pub open spec fn item_id_of(raw: u16) -> Option<ItemId> {
    if raw == 0 {
        None
    } else {
        Some(ItemId(raw))
    }
}

fn ability_id(raw: u8) -> (r: Option<AbilityId>)
    ensures
        r == ability_id_of(raw),
{
    if raw == 0 {
        None
    } else {
        Some(AbilityId(raw))
    }
}

fn item_id(raw: u16) -> (r: Option<ItemId>)
    ensures
        r == item_id_of(raw),
{
    if raw == 0 {
        None
    } else {
        Some(ItemId(raw))
    }
}

/// Why a species record does not convert: a name that fails a strict decode, or an
/// unknown egg group (the second only where it differs from the first); none if it does.
pub open spec fn species_check(name: Seq<u8>, v: RawBaseStats) -> Option<ValidationError> {
    if !(strict_text(name) is Text) {
        Some(text_error("name", name))
    } else if egg_group_of(v.egg_group1) is None {
        Some(ValidationError { field: "egg_group1", problem: Problem::EggGroup(v.egg_group1) })
    } else if v.egg_group2 != v.egg_group1 && egg_group_of(v.egg_group2) is None {
        Some(ValidationError { field: "egg_group2", problem: Problem::EggGroup(v.egg_group2) })
    } else {
        None
    }
}

/// Whether `s` is the conversion of a species' stored name and base stats.
pub open spec fn species_converted(name: Seq<u8>, v: RawBaseStats, s: Species) -> bool {
    &&& s.original_name matches Some(n) ==> full_name_for(name_hash_of(name)) matches Some(f) && n@ == f@
    &&& s.original_name is None ==> full_name_for(name_hash_of(name)) is None
    &&& strict_text(name) == StrictText::Text(s.ingame_name@)
    &&& s.base_stats == (Stats { hp: v.base_hp, atk: v.base_atk, def: v.base_def, spa: v.base_spa, spd: v.base_spd, spe: v.base_spe })
    &&& s.type1 == pokemon_type_of(v.type1)
    &&& s.type2 == (if v.type2 == v.type1 { None } else { Some(pokemon_type_of(v.type2)) })
    &&& s.catch_rate == v.catch_rate
    &&& s.exp == v.exp
    &&& s.ev_yield == (Stats { hp: ev_bits(v.evs, 0), atk: ev_bits(v.evs, 2), def: ev_bits(v.evs, 4), spa: ev_bits(v.evs, 8), spd: ev_bits(v.evs, 10), spe: ev_bits(v.evs, 6) })
    &&& s.hold_item1 == item_id_of(v.item1)
    &&& s.hold_item2 == item_id_of(v.item2)
    &&& s.gender_ratio == v.gender_ratio
    &&& s.egg_cycles == v.egg_cycles
    &&& s.base_friendship == v.friendship
    &&& s.growth_rate == v.growth_rate
    &&& egg_group_of(v.egg_group1) == Some(s.egg_group1)
    &&& s.egg_group2 == (if v.egg_group2 == v.egg_group1 { None } else { egg_group_of(v.egg_group2).unwrap() })
    &&& s.ability1 == ability_id_of(v.ability1)
    &&& s.ability2 == ability_id_of(v.ability2)
    &&& s.hidden_ability == ability_id_of(v.hidden_ability)
}

impl Species {
    /// Converts a species' stored name and base stats, putting stats in display order,
    /// leaving out a second type or egg group equal to the first, and reading ids of 0
    /// as none.
    pub fn try_from(raw: RawPokemon) -> (r: Result<Species, ValidationError>)
        requires
            raw.name.0@.len() == POKEMON_NAME_SIZE,
        ensures
            match r {
                Ok(s) => species_check(raw.name.0@, raw.value) is None && species_converted(
                    raw.name.0@,
                    raw.value,
                    s,
                ),
                Err(e) => species_check(raw.name.0@, raw.value) == Some(e),
            },
    {
        let name = raw.name.0.as_slice();
        let v = raw.value;
        let original_name = match expand_name(name) {
            Some(s) => Some(s.to_owned()),
            None => None,
        };
        let ingame_name = parse_field("name", name)?;
        let egg_group1 = map_egg_group("egg_group1", v.egg_group1)?;
        let egg_group2 = if v.egg_group1 == v.egg_group2 {
            None
        } else {
            map_egg_group("egg_group2", v.egg_group2)?
        };
        Ok(
            Species {
                original_name,
                ingame_name,
                base_stats: Stats {
                    hp: v.base_hp,
                    atk: v.base_atk,
                    def: v.base_def,
                    spa: v.base_spa,
                    spd: v.base_spd,
                    spe: v.base_spe,
                },
                type1: map_pokemon_type(v.type1),
                type2: if v.type2 == v.type1 {
                    None
                } else {
                    Some(map_pokemon_type(v.type2))
                },
                catch_rate: v.catch_rate,
                exp: v.exp,
                ev_yield: Stats {
                    hp: unpack_ev_bits(v.evs, 0),
                    atk: unpack_ev_bits(v.evs, 2),
                    def: unpack_ev_bits(v.evs, 4),
                    spa: unpack_ev_bits(v.evs, 8),
                    spd: unpack_ev_bits(v.evs, 10),
                    spe: unpack_ev_bits(v.evs, 6),
                },
                hold_item1: item_id(v.item1),
                hold_item2: item_id(v.item2),
                gender_ratio: v.gender_ratio,
                egg_cycles: v.egg_cycles,
                base_friendship: v.friendship,
                growth_rate: v.growth_rate,
                egg_group1,
                egg_group2,
                ability1: ability_id(v.ability1),
                ability2: ability_id(v.ability2),
                hidden_ability: ability_id(v.hidden_ability),
            },
        )
    }
}

} // verus!
