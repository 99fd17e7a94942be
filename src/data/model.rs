//! The decoded game data: abilities, items, moves and species.
use vstd::prelude::*;

verus! {

/// An elemental type.
#[derive(Clone, Copy, Debug, PartialEq, Eq, Hash, Structural)]
pub enum PokemonType {
    Normal,
    Fighting,
    Flying,
    Poison,
    Ground,
    Rock,
    Bug,
    GhostType,
    Steel,
    Fire,
    Water,
    Grass,
    Electric,
    Psychic,
    Ice,
    Dragon,
    Dark,
    Fairy,
    Unknown,
}

/// A breeding group.
#[derive(Clone, Copy, Debug, PartialEq, Eq, Hash, Structural)]
pub enum EggGroup {
    Monster,
    Water1,
    Bug,
    Flying,
    Field,
    Fairy,
    Grass,
    HumanLike,
    Water3,
    Mineral,
    Amorphous,
    Water2,
    Ditto,
    Dragon,
    Undiscovered,
}

/// Whether a move is physical, special or a status move.
#[derive(Clone, Copy, Debug, PartialEq, Eq, Hash, Structural)]
pub enum Split {
    Physical,
    Special,
    Status,
}

/// The bag pocket an item goes in.
#[derive(Clone, Copy, Debug, PartialEq, Eq, Hash, Structural)]
pub enum ItemPocket {
    Items,
    KeyItems,
    PokeBalls,
    TmCase,
    BerryPouch,
}

/// What kind of item an item is.
#[derive(Clone, Copy, Debug, PartialEq, Eq, Hash, Structural)]
pub enum ItemType {
    FieldUse,
    HealthRecovery,
    StatusRecovery,
    PpRecovery,
    StatBoostDrink,
    StatBoostWing,
    EvolutionStone,
    EvolutionItem,
    BattleItem,
    Flute,
    StatBoostHeldItem,
    HeldItem,
    Gem,
    Plate,
    Memory,
    Drive,
    Incense,
    MegaStone,
    ZCrystal,
    Nectar,
    Sellable,
    Relic,
    Shard,
    Fossil,
    Mail,
}

/// An ability by its index; 0 stands for none and is never held here.
#[derive(Clone, Copy, Debug, PartialEq, Eq, Hash, Structural)]
pub struct AbilityId(pub u8);

/// An item by its index; 0 stands for none and is never held here.
#[derive(Clone, Copy, Debug, PartialEq, Eq, Hash, Structural)]
pub struct ItemId(pub u16);

/// The decoded tables.
#[derive(Debug, Clone)]
pub struct Rom {
    pub abilities: Vec<Ability>,
    pub items: Vec<Item>,
    pub moves: Vec<Move>,
    pub species: Vec<Species>,
}

/// One ability.
#[derive(Debug, Clone)]
pub struct Ability {
    pub name: String,
}

/// One item.
#[derive(Debug, Clone)]
pub struct Item {
    pub name: String,
    pub price: u16,
    pub pocket: ItemPocket,
    pub item_type: ItemType,
}

/// One move.
#[derive(Debug, Clone)]
pub struct Move {
    pub name: String,
    pub power: u8,
    pub move_type: PokemonType,
    pub accuracy: u8,
    pub pp: u8,
    pub secondary_effect_chance: u8,
    pub priority: u8,
    pub split: Split,
}

/// One species.
#[derive(Debug, Clone)]
pub struct Species {
    pub original_name: Option<String>,
    pub ingame_name: String,
    pub base_stats: Stats<u8>,
    pub type1: PokemonType,
    pub type2: Option<PokemonType>,
    pub catch_rate: u8,
    pub exp: u8,
    pub ev_yield: Stats<u8>,
    pub hold_item1: Option<ItemId>,
    pub hold_item2: Option<ItemId>,
    pub gender_ratio: u8,
    pub egg_cycles: u8,
    pub base_friendship: u8,
    pub growth_rate: u8,
    pub egg_group1: Option<EggGroup>,
    pub egg_group2: Option<EggGroup>,
    pub ability1: Option<AbilityId>,
    pub ability2: Option<AbilityId>,
    pub hidden_ability: Option<AbilityId>,
}

/// One value for each of the six stats, in display order.
#[derive(Debug, Clone, Copy, PartialEq, Eq)]
pub struct Stats<T> {
    pub hp: T,
    pub atk: T,
    pub def: T,
    pub spa: T,
    pub spd: T,
    pub spe: T,
}

} // verus!
