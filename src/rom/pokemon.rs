//! Species: base stats, types and the mapping to national numbers.
use std::collections::HashMap;
use vstd::prelude::*;
use crate::bytes::{le_u16, read_u16_le};
use crate::pokedex::{NationalDexId, SpeciesId};
use crate::save::pokemon::canonical_order;
use super::abilities::AbilityId;
use super::read::{
    check_bounds, in_bounds, pointed_string_list, pointer_at, read_pointer, read_string_list, RomError,
};

verus! {

broadcast use vstd::std_specs::hash::group_hash_axioms;

/// Species in the tables.
pub const NUM_SPECIES: usize = 1268;

/// Characters of a species name, not counting its terminator.
pub const POKEMON_NAME_LENGTH: usize = 10;

/// Where the pointer to the species names is stored.
pub const SPECIES_NAMES_OFFSET: u64 = 0x0144;

/// Where the pointer to the base stats is stored.
pub const BASE_STATS_OFFSET: u64 = 0x01BC;

/// Bytes of one base-stats record that are read.
pub const BASE_STATS_SIZE: usize = 27;

/// An elemental type.
#[derive(Clone, Copy, Debug, PartialEq, Eq, Structural)]
pub enum PokemonType {
    Normal,
    Fighting,
    Flying,
    Poison,
    Ground,
    Rock,
    Bug,
    GhostType,
    Steel,
    Fire,
    Water,
    Grass,
    Electric,
    Psychic,
    Ice,
    Dragon,
    Dark,
    Fairy,
    Unknown(u8),
}

/// The type that a raw type byte stands for.
pub open spec fn pokemon_type_of(raw: u8) -> PokemonType {
    match raw {
        0x00 => PokemonType::Normal,
        0x01 => PokemonType::Fighting,
        0x02 => PokemonType::Flying,
        0x03 => PokemonType::Poison,
        0x04 => PokemonType::Ground,
        0x05 => PokemonType::Rock,
        0x06 => PokemonType::Bug,
        0x07 => PokemonType::GhostType,
        0x08 => PokemonType::Steel,
        0x0a => PokemonType::Fire,
        0x0b => PokemonType::Water,
        0x0c => PokemonType::Grass,
        0x0d => PokemonType::Electric,
        0x0e => PokemonType::Psychic,
        0x0f => PokemonType::Ice,
        0x10 => PokemonType::Dragon,
        0x11 => PokemonType::Dark,
        0x17 => PokemonType::Fairy,
        x => PokemonType::Unknown(x),
    }
}

impl PokemonType {
    /// The type that a raw type byte stands for; unknown bytes are kept.
    pub fn parse(raw: u8) -> (r: PokemonType)
        ensures
            r == pokemon_type_of(raw),
    {
        match raw {
            0x00 => PokemonType::Normal,
            0x01 => PokemonType::Fighting,
            0x02 => PokemonType::Flying,
            0x03 => PokemonType::Poison,
            0x04 => PokemonType::Ground,
            0x05 => PokemonType::Rock,
            0x06 => PokemonType::Bug,
            0x07 => PokemonType::GhostType,
            0x08 => PokemonType::Steel,
            0x0a => PokemonType::Fire,
            0x0b => PokemonType::Water,
            0x0c => PokemonType::Grass,
            0x0d => PokemonType::Electric,
            0x0e => PokemonType::Psychic,
            0x0f => PokemonType::Ice,
            0x10 => PokemonType::Dragon,
            0x11 => PokemonType::Dark,
            0x17 => PokemonType::Fairy,
            x => PokemonType::Unknown(x),
        }
    }
}

/// A species' base data.
#[derive(Debug, Clone)]
pub struct Species {
    pub name: String,
    pub base_stats: [u8; 6],
    pub type1: PokemonType,
    pub type2: Option<PokemonType>,
    pub catch_rate: u8,
    pub exp: u8,
    pub evs: [u8; 6],
    pub hold_item1: Option<u16>,
    pub hold_item2: Option<u16>,
    pub gender_ratio: u8,
    pub egg_cycles: u8,
    pub base_friendship: u8,
    pub growth_rate: u8,
    pub egg_group1: u8,
    pub egg_group2: u8,
    pub ability1: AbilityId,
    pub ability2: Option<AbilityId>,
    pub hidden_ability: Option<AbilityId>,
}

/// The 2-bit effort yield `k` (0 to 5, from the least significant end) of a packed word.
pub open spec fn ev_field(raw: u16, k: u16) -> u8 {
    ((raw >> (2 * k)) & 0x3) as u8
}

/// An id of which 0 means none.
pub open spec fn nonzero<T>(raw: T, zero: bool) -> Option<T> {
    if zero {
        None
    } else {
        Some(raw)
    }
}

fn unpack_ev(raw: u16, k: u16) -> (r: u8)
    requires
        k < 6,
    ensures
        r == ev_field(raw, k),
{
    let v = (raw >> (2 * k)) & 0x3;
    assert(v < 4) by (bit_vector)
        requires
            v == (raw >> (2 * k)) & 0x3,
    ;
    v as u8
}

/// Whether `s` holds, apart from its name, what the base-stats record `d` stores, with
/// stats and effort yields in display order and ids of 0 read as none.
pub open spec fn species_from_record(d: Seq<u8>, s: Species) -> bool {
    &&& s.base_stats@ == canonical_order(d.subrange(0, 6))
    &&& s.type1 == pokemon_type_of(d[6])
    &&& s.type2 == Some(pokemon_type_of(d[7]))
    &&& s.catch_rate == d[8]
    &&& s.exp == d[9]
    &&& s.evs@ == canonical_order(Seq::new(6, |k: int| ev_field(le_u16(d, 10), k as u16)))
    &&& s.hold_item1 == nonzero(le_u16(d, 12), le_u16(d, 12) == 0)
    &&& s.hold_item2 == nonzero(le_u16(d, 14), le_u16(d, 14) == 0)
    &&& s.gender_ratio == d[16]
    &&& s.egg_cycles == d[17]
    &&& s.base_friendship == d[18]
    &&& s.growth_rate == d[19]
    &&& s.egg_group1 == d[20]
    &&& s.egg_group2 == d[21]
    &&& s.ability1 == AbilityId(d[22])
    &&& s.ability2 == nonzero(AbilityId(d[23]), d[23] == 0)
    &&& s.hidden_ability == nonzero(AbilityId(d[26]), d[26] == 0)
}

impl Species {
    /// Reads the base-stats record at `offset` of the image. The name is left empty;
    /// stats and effort yields are put in display order.
    pub fn read_base_stats(rom: &[u8], offset: u64) -> (r: Result<Species, RomError>)
        ensures
            r is Ok <==> in_bounds(rom@.len() as int, offset as int, BASE_STATS_SIZE as int),
            r matches Err(e) ==> e == (RomError::Eof { offset: offset, len: BASE_STATS_SIZE as u64 }),
            r matches Ok(s) ==> s.name@.len() == 0 && species_from_record(
                rom@.subrange(offset as int, offset + BASE_STATS_SIZE),
                s,
            ),
    {
        check_bounds(rom, offset, BASE_STATS_SIZE as u64)?;
        let n = rom.len();
        assert(offset + BASE_STATS_SIZE <= n);
        let d = vstd::slice::slice_subrange(rom, offset as usize, offset as usize + BASE_STATS_SIZE);
        // Storage order is HP, Attack, Defense, Speed, Sp. Attack, Sp. Defense.
        let base_stats = [d[0], d[1], d[2], d[4], d[5], d[3]];
        let type1 = PokemonType::parse(d[6]);
        let type2 = PokemonType::parse(d[7]);
        let raw_evs = read_u16_le(d, 10);
        let evs = [
            unpack_ev(raw_evs, 0),
            unpack_ev(raw_evs, 1),
            unpack_ev(raw_evs, 2),
            unpack_ev(raw_evs, 4),
            unpack_ev(raw_evs, 5),
            unpack_ev(raw_evs, 3),
        ];
        let raw_hold_item1 = read_u16_le(d, 12);
        let raw_hold_item2 = read_u16_le(d, 14);
        let raw_ability2 = d[23];
        let raw_hidden_ability = d[26];
        let s = Species {
            name: String::new(),
            base_stats,
            type1,
            type2: Some(type2),
            catch_rate: d[8],
            exp: d[9],
            evs,
            hold_item1: if raw_hold_item1 == 0 {
                None
            } else {
                Some(raw_hold_item1)
            },
            hold_item2: if raw_hold_item2 == 0 {
                None
            } else {
                Some(raw_hold_item2)
            },
            gender_ratio: d[16],
            egg_cycles: d[17],
            base_friendship: d[18],
            growth_rate: d[19],
            egg_group1: d[20],
            egg_group2: d[21],
            ability1: AbilityId(d[22]),
            ability2: if raw_ability2 == 0 {
                None
            } else {
                Some(AbilityId(raw_ability2))
            },
            hidden_ability: if raw_hidden_ability == 0 {
                None
            } else {
                Some(AbilityId(raw_hidden_ability))
            },
        };
        assert(s.base_stats@ =~= canonical_order(d@.subrange(0, 6)));
        assert(s.evs@ =~= canonical_order(Seq::new(6, |k: int| ev_field(le_u16(d@, 10), k as u16))));
        Ok(s)
    }
}

/// The species and how their internal ids map to national numbers.
#[derive(Debug, Clone)]
pub struct PokemonTable {
    pub species: Vec<Species>,
    pub species_to_national_dex_id: HashMap<u16, u16>,
    pub national_dex_to_species_id: HashMap<u16, u16>,
}

impl PokemonTable {
    /// The species with internal id `species_id`, if the table has one.
    pub fn get_by_species_id(&self, species_id: SpeciesId) -> (r: Option<&Species>)
        ensures
            match r {
                Some(s) => species_id.0 < self.species@.len() && *s == self.species@[species_id.0 as int],
                None => species_id.0 >= self.species@.len(),
            },
    {
        let i = species_id.0 as usize;
        if i < self.species.len() {
            Some(&self.species[i])
        } else {
            None
        }
    }

    /// The internal id of the species with national number `national_dex_id`, if known.
    pub fn national_dex_to_species_id(&self, national_dex_id: NationalDexId) -> (r: Option<
        SpeciesId,
    >)
        ensures
            match r {
                Some(s) => self.national_dex_to_species_id@.contains_key(national_dex_id.0)
                    && s.0 == self.national_dex_to_species_id@[national_dex_id.0],
                None => !self.national_dex_to_species_id@.contains_key(national_dex_id.0),
            },
    {
        match self.national_dex_to_species_id.get(&national_dex_id.0) {
            Some(id) => Some(SpeciesId(*id)),
            None => None,
        }
    }

    /// The national number of the species with internal id `species_id`, if known.
    pub fn species_to_natinal_dex_id(&self, species_id: SpeciesId) -> (r: Option<NationalDexId>)
        ensures
            match r {
                Some(n) => self.species_to_national_dex_id@.contains_key(species_id.0) && n.0
                    == self.species_to_national_dex_id@[species_id.0],
                None => !self.species_to_national_dex_id@.contains_key(species_id.0),
            },
    {
        match self.species_to_national_dex_id.get(&species_id.0) {
            Some(id) => Some(NationalDexId(*id)),
            None => None,
        }
    }
}


/// The lists that tie species names to national numbers: the names in national order
/// (number 1 first), the names that take no number, and the full spelling of each name
/// the game stores shortened.
pub struct NationalDex {
    pub names: Vec<String>,
    pub ignored: Vec<String>,
    pub shortened: Vec<(String, String)>,
}

/// The full spelling of a stored name: the last entry of `short` for it, else the name.
pub open spec fn expanded(short: Seq<(Seq<char>, Seq<char>)>, name: Seq<char>) -> Seq<char>
    decreases short.len(),
{
    if short.len() == 0 {
        name
    } else if short.last().0 == name {
        short.last().1
    } else {
        expanded(short.drop_last(), name)
    }
}

/// The name under which a stored species name is looked up, or none if it is ignored.
pub open spec fn key_of(
    ignored: Seq<Seq<char>>,
    short: Seq<(Seq<char>, Seq<char>)>,
    name: Seq<char>,
) -> Option<Seq<char>> {
    if ignored.contains(name) {
        None
    } else {
        Some(expanded(short, name))
    }
}

/// The last of the first `k` species whose lookup name is `target`.
pub open spec fn last_claimant(
    names: Seq<Seq<char>>,
    ignored: Seq<Seq<char>>,
    short: Seq<(Seq<char>, Seq<char>)>,
    target: Seq<char>,
    k: nat,
) -> Option<int>
    decreases k,
{
    if k == 0 {
        None
    } else if key_of(ignored, short, names[k - 1]) == Some(target) {
        Some(k - 1)
    } else {
        last_claimant(names, ignored, short, target, (k - 1) as nat)
    }
}

/// The views of the three lists.
pub open spec fn dex_names(d: &NationalDex) -> Seq<Seq<char>> {
    d.names@.map_values(|s: String| s@)
}

pub open spec fn dex_ignored(d: &NationalDex) -> Seq<Seq<char>> {
    d.ignored@.map_values(|s: String| s@)
}

pub open spec fn dex_shortened(d: &NationalDex) -> Seq<(Seq<char>, Seq<char>)> {
    d.shortened@.map_values(|p: (String, String)| (p.0@, p.1@))
}

/// The species that national entry `k` (0-based) is linked to: the last species whose
/// lookup name is the entry's name, provided no earlier entry has that name.
pub open spec fn linked_species(names: Seq<Seq<char>>, d: &NationalDex, k: int) -> Option<int> {
    let dex = dex_names(d);
    if exists|j: int| 0 <= j < k && dex[j] == dex[k] {
        None
    } else {
        last_claimant(names, dex_ignored(d), dex_shortened(d), dex[k], names.len())
    }
}

fn contains_name(list: &Vec<String>, name: &String) -> (r: bool)
    ensures
        r == list@.map_values(|s: String| s@).contains(name@),
{
    let ghost v = list@.map_values(|s: String| s@);
    let mut i: usize = 0;
    while i < list.len()
        invariant
            i <= list@.len(),
            v == list@.map_values(|s: String| s@),
            forall|j: int| 0 <= j < i ==> v[j] != name@,
        decreases list@.len() - i,
    {
        if list[i] == *name {
            assert(v[i as int] == name@);
            return true;
        }
        i += 1;
    }
    false
}

fn expand(short: &Vec<(String, String)>, name: &String) -> (r: String)
    ensures
        r@ == expanded(short@.map_values(|p: (String, String)| (p.0@, p.1@)), name@),
{
    let ghost v = short@.map_values(|p: (String, String)| (p.0@, p.1@));
    let mut i: usize = short.len();
    assert(v.subrange(0, i as int) =~= v);
    while i > 0
        invariant
            i <= short@.len(),
            v == short@.map_values(|p: (String, String)| (p.0@, p.1@)),
            expanded(v, name@) == expanded(v.subrange(0, i as int), name@),
        decreases i,
    {
        assert(v.subrange(0, i as int).drop_last() =~= v.subrange(0, i - 1));
        if short[i - 1].0 == *name {
            return short[i - 1].1.clone();
        }
        i -= 1;
    }
    name.clone()
}

fn find_claimant(names: &Vec<String>, d: &NationalDex, target: &String) -> (r: Option<u16>)
    requires
        names@.len() <= NUM_SPECIES,
    ensures
        match last_claimant(
            names@.map_values(|s: String| s@),
            dex_ignored(d),
            dex_shortened(d),
            target@,
            names@.len(),
        ) {
            Some(i) => r == Some(i as u16),
            None => r is None,
        },
{
    let ghost v = names@.map_values(|s: String| s@);
    let mut k: usize = names.len();
    while k > 0
        invariant
            k <= names@.len() <= NUM_SPECIES,
            v == names@.map_values(|s: String| s@),
            last_claimant(v, dex_ignored(d), dex_shortened(d), target@, names@.len())
                == last_claimant(v, dex_ignored(d), dex_shortened(d), target@, k as nat),
        decreases k,
    {
        let name = &names[k - 1];
        if !contains_name(&d.ignored, name) {
            let key = expand(&d.shortened, name);
            if key == *target {
                return Some((k - 1) as u16);
            }
        }
        k -= 1;
    }
    None
}

fn appears_before(list: &Vec<String>, k: usize) -> (r: bool)
    requires
        k < list@.len(),
    ensures
        r == exists|j: int| 0 <= j < k && list@[j]@ == list@[k as int]@,
{
    let mut j: usize = 0;
    while j < k
        invariant
            j <= k < list@.len(),
            forall|x: int| 0 <= x < j ==> list@[x]@ != list@[k as int]@,
        decreases k - j,
    {
        if list[j] == list[k] {
            return true;
        }
        j += 1;
    }
    false
}


/// A national entry linked to a species has that species' lookup name.
proof fn lemma_last_claimant_key(
    names: Seq<Seq<char>>,
    ignored: Seq<Seq<char>>,
    short: Seq<(Seq<char>, Seq<char>)>,
    target: Seq<char>,
    k: nat,
)
    requires
        last_claimant(names, ignored, short, target, k) is Some,
    ensures
        0 <= last_claimant(names, ignored, short, target, k)->Some_0 < k,
        key_of(ignored, short, names[last_claimant(names, ignored, short, target, k)->Some_0])
            == Some(target),
    decreases k,
{
    if k > 0 && key_of(ignored, short, names[k - 1]) != Some(target) {
        lemma_last_claimant_key(names, ignored, short, target, (k - 1) as nat);
    }
}

/// Why the species tables cannot be read from the image, if they cannot.
pub open spec fn pokemon_table_error(rom: Seq<u8>) -> Option<RomError> {
    match pointer_at(rom, BASE_STATS_OFFSET as int) {
        Err(e) => Some(e),
        Ok(p) => if !in_bounds(rom.len() as int, p, BASE_STATS_SIZE * NUM_SPECIES) {
            Some(RomError::Eof { offset: p as u64, len: (BASE_STATS_SIZE * NUM_SPECIES) as u64 })
        } else {
            match pointed_string_list(
                rom,
                SPECIES_NAMES_OFFSET as int,
                NUM_SPECIES as int,
                POKEMON_NAME_LENGTH + 1,
            ) {
                Err(e) => Some(e),
                Ok(_) => None,
            }
        },
    }
}

/// Whether `t` is the species table that the image `rom` holds, linked through `dex`.
pub open spec fn pokemon_table_loaded(rom: Seq<u8>, dex: &NationalDex, t: PokemonTable) -> bool {
    let p = pointer_at(rom, BASE_STATS_OFFSET as int)->Ok_0;
    let names = pointed_string_list(
        rom,
        SPECIES_NAMES_OFFSET as int,
        NUM_SPECIES as int,
        POKEMON_NAME_LENGTH + 1,
    )->Ok_0;
    &&& pokemon_table_error(rom) is None
    &&& t.species@.len() == NUM_SPECIES
    &&& forall|i: int|
        0 <= i < NUM_SPECIES ==> #[trigger] t.species@[i].name@ == names[i]
            && species_from_record(
            rom.subrange(p + i * BASE_STATS_SIZE, p + (i + 1) * BASE_STATS_SIZE),
            t.species@[i],
        )
    &&& forall|n: u16| #[trigger]
        t.national_dex_to_species_id@.contains_key(n) <==> 1 <= n <= dex.names@.len()
            && linked_species(names, dex, n - 1) is Some
    &&& forall|n: u16| #[trigger]
        t.national_dex_to_species_id@.contains_key(n)
            ==> t.national_dex_to_species_id@[n] == linked_species(names, dex, n - 1)->Some_0
    &&& forall|n: u16| #[trigger]
        t.national_dex_to_species_id@.contains_key(n)
            ==> t.species_to_national_dex_id@.contains_key(t.national_dex_to_species_id@[n])
            && t.species_to_national_dex_id@[t.national_dex_to_species_id@[n]] == n
    &&& forall|s: u16| #[trigger]
        t.species_to_national_dex_id@.contains_key(s)
            ==> t.national_dex_to_species_id@.contains_key(t.species_to_national_dex_id@[s])
            && t.national_dex_to_species_id@[t.species_to_national_dex_id@[s]] == s
}

impl PokemonTable {
    /// Reads every species' base stats and name from the image, and links each national
    /// number to the last species whose lookup name is that number's name (a name that
    /// recurs in the national list links only its first number).
    pub fn load(rom: &[u8], dex: &NationalDex) -> (r: Result<PokemonTable, RomError>)
        requires
            dex.names@.len() < 0xFFFF,
        ensures
            match r {
                Err(e) => pokemon_table_error(rom@) == Some(e),
                Ok(t) => pokemon_table_loaded(rom@, dex, t),
            },
    {
        let ptr = read_pointer(rom, BASE_STATS_OFFSET)?;
        check_bounds(rom, ptr, (BASE_STATS_SIZE * NUM_SPECIES) as u64)?;
        let names_ptr = read_pointer(rom, SPECIES_NAMES_OFFSET)?;
        let names = read_string_list(rom, names_ptr, NUM_SPECIES, POKEMON_NAME_LENGTH + 1)?;
        let ghost name_view = names@.map_values(|s: String| s@);
        let mut species: Vec<Species> = Vec::new();
        let mut i: usize = 0;
        while i < NUM_SPECIES
            invariant
                i <= NUM_SPECIES,
                ptr + BASE_STATS_SIZE * NUM_SPECIES <= rom@.len(),
                names@.len() == NUM_SPECIES,
                name_view == names@.map_values(|s: String| s@),
                species@.len() == i,
                forall|k: int|
                    0 <= k < i ==> #[trigger] species@[k].name@ == name_view[k] && species_from_record(
                        rom@.subrange(ptr + k * BASE_STATS_SIZE, ptr + (k + 1) * BASE_STATS_SIZE),
                        species@[k],
                    ),
            decreases NUM_SPECIES - i,
        {
            assert(ptr + i * BASE_STATS_SIZE + BASE_STATS_SIZE <= rom@.len()) by (nonlinear_arith)
                requires
                    i < NUM_SPECIES,
                    ptr + BASE_STATS_SIZE * NUM_SPECIES <= rom@.len(),
            ;
            let len = rom.len();
            let offset = ptr + (i * BASE_STATS_SIZE) as u64;
            let mut s = match Species::read_base_stats(rom, offset) {
                Ok(s) => s,
                Err(e) => {
                    return Err(e);
                },
            };
            s.name = names[i].clone();
            assert(offset + BASE_STATS_SIZE == ptr + (i + 1) * BASE_STATS_SIZE);
            species.push(s);
            i += 1;
        }

        let mut species_to_national_dex_id: HashMap<u16, u16> = HashMap::new();
        let mut national_dex_to_species_id: HashMap<u16, u16> = HashMap::new();
        let mut k: usize = 0;
        while k < dex.names.len()
            invariant
                k <= dex.names@.len() < 0xFFFF,
                names@.len() == NUM_SPECIES,
                name_view == names@.map_values(|s: String| s@),
                forall|n: u16| #[trigger]
                    national_dex_to_species_id@.contains_key(n) <==> 1 <= n <= k
                        && linked_species(name_view, dex, n - 1) is Some,
                forall|n: u16| #[trigger]
                    national_dex_to_species_id@.contains_key(n)
                        ==> national_dex_to_species_id@[n] == linked_species(name_view, dex, n - 1)->Some_0,
                forall|n: u16| #[trigger]
                    national_dex_to_species_id@.contains_key(n)
                        ==> species_to_national_dex_id@.contains_key(national_dex_to_species_id@[n])
                        && species_to_national_dex_id@[national_dex_to_species_id@[n]] == n,
                forall|s: u16| #[trigger]
                    species_to_national_dex_id@.contains_key(s)
                        ==> national_dex_to_species_id@.contains_key(species_to_national_dex_id@[s])
                        && national_dex_to_species_id@[species_to_national_dex_id@[s]] == s,
            decreases dex.names@.len() - k,
        {
            let ghost dexv = dex_names(dex);
            let ghost before_nat = national_dex_to_species_id@;
            assert(dex.names@[k as int]@ == dexv[k as int]);
            if appears_before(&dex.names, k) {
                assert(linked_species(name_view, dex, k as int) is None) by {
                    let j = choose|j: int| 0 <= j < k && dex.names@[j]@ == dex.names@[k as int]@;
                    assert(dexv[j] == dexv[k as int]);
                }
            } else {
                assert(!(exists|j: int| 0 <= j < k && dexv[j] == dexv[k as int]));
                match find_claimant(&names, dex, &dex.names[k]) {
                    Some(sid) => {
                        let n = (k + 1) as u16;
                        proof {
                            lemma_last_claimant_key(name_view, dex_ignored(dex), dex_shortened(dex), dexv[k as int], NUM_SPECIES as nat);
                            if species_to_national_dex_id@.contains_key(sid) {
                                let m = species_to_national_dex_id@[sid];
                                assert(national_dex_to_species_id@.contains_key(m));
                                lemma_last_claimant_key(name_view, dex_ignored(dex), dex_shortened(dex), dexv[m - 1], NUM_SPECIES as nat);
                                assert(dexv[m - 1] == dexv[k as int]);
                                assert(false);
                            }
                        }
                        species_to_national_dex_id.insert(sid, n);
                        national_dex_to_species_id.insert(n, sid);
                    },
                    None => {
                        assert(linked_species(name_view, dex, k as int) is None);
                    },
                }
            }
            assert forall|n: u16| #[trigger]
                national_dex_to_species_id@.contains_key(n) <==> 1 <= n <= k + 1
                    && linked_species(name_view, dex, n - 1) is Some by {
                if n == k + 1 {
                } else {
                    assert(national_dex_to_species_id@.contains_key(n) == before_nat.contains_key(n));
                }
            }
            k += 1;
        }
        assert(pokemon_table_error(rom@) is None);
        assert(pointed_string_list(rom@, SPECIES_NAMES_OFFSET as int, NUM_SPECIES as int, POKEMON_NAME_LENGTH + 1)->Ok_0 == name_view);
        Ok(PokemonTable { species, species_to_national_dex_id, national_dex_to_species_id })
    }
}

} // verus!
