//! Reading the extended image's tables: each is reached through a pointer, starts
//! with a placeholder record, and holds fixed-size records.
use vstd::prelude::*;
use crate::bytes::{le_u16, read_u16_le};
use crate::encoding::{strict_text, StrictText};
use crate::rom::read::{check_bounds, in_bounds, pointer_at, read_pointer, RomError};
use super::mapping::{
    item_type_of, map_item_type, map_pocket, parse_field, pocket_of, text_error, Problem,
    ValidationError,
};
use super::model::{Ability, Item, ItemPocket, ItemType, Rom, Species};
use super::tables::{
    base_stats_from, species_check, species_converted, Named, RawBaseStats, RawPokemon,
    RawPokemonName, BASE_STATS_RECORD_SIZE, POKEMON_NAME_SIZE,
};

verus! {

/// Records in the ability name table, the placeholder included.
pub const ABILITY_COUNT: usize = 0xFF;

/// Where the pointer to the ability name table is stored.
pub const ABILITY_NAMES_OFFSET: u64 = 0x01C0;

/// Bytes of a stored ability name.
pub const ABILITY_NAME_SIZE: usize = 17;

/// Records in the item table, the placeholder included.
pub const ITEM_COUNT: usize = 250;

/// Where the pointer to the item table is stored.
pub const ITEMS_OFFSET: u64 = 0x01C8;

/// Bytes of an item record.
pub const ITEM_RECORD_SIZE: usize = 44;

/// Records in the species tables, the placeholder included.
pub const SPECIES_COUNT: usize = 1268;

/// Where the pointer to the base-stats table is stored.
pub const BASE_STATS_OFFSET: u64 = 0x01BC;

/// Where the pointer to the species name table is stored.
pub const SPECIES_NAMES_OFFSET: u64 = 0x0144;

/// A record that could not be read.
#[derive(Debug, Clone, Copy)]
pub struct ReadTableError {
    /// The table's name.
    pub table: &'static str,
    /// The record's index in the table; 0 when the table itself cannot be found.
    pub index: usize,
    pub err: RomError,
}

impl ReadTableError {
    /// The error for record `index` of table `table`.
    pub fn new(table: &'static str, index: usize, err: RomError) -> (r: ReadTableError)
        ensures
            r == (ReadTableError { table: table, index: index, err: err }),
    {
        ReadTableError { table, index, err }
    }
}

/// Why the tables could not be decoded.
#[derive(Debug)]
pub enum ReadRomError {
    ReadTable(ReadTableError),
    Validation(ValidationError),
}

/// A stored ability name.
pub struct RawAbilityName(pub Vec<u8>);

/// The fields of an item record that are decoded.
#[derive(Debug, Clone, Copy, PartialEq, Eq, Structural)]
pub struct RawItem {
    pub price: u16,
    pub pocket: u8,
    pub item_type: u8,
}

/// Where a table's records lie.
pub struct TableReader {
    pub table: &'static str,
    /// Where record 1, the first after the placeholder, starts.
    pub start: u64,
    /// Bytes of each record.
    pub size: usize,
    /// Records in the table, the placeholder included.
    pub count: usize,
}

/// Where record 1 of the table whose pointer is stored at `offset` starts.
pub open spec fn table_start(rom: Seq<u8>, offset: int, size: int) -> Result<int, RomError> {
    match pointer_at(rom, offset) {
        Err(e) => Err(e),
        Ok(p) => Ok(p + size),
    }
}

/// The bytes of record `k` (from 1) of a table whose record 1 starts at `start`.
pub open spec fn record_at(rom: Seq<u8>, start: int, size: int, k: int) -> Option<Seq<u8>> {
    let at = start + (k - 1) * size;
    if in_bounds(rom.len() as int, at, size) {
        Some(rom.subrange(at, at + size))
    } else {
        None
    }
}

/// The error for record `k` (from 1) that lies past the end of the image.
pub open spec fn record_error(table: &'static str, start: int, size: int, k: int) -> ReadTableError {
    ReadTableError {
        table: table,
        index: k as usize,
        err: RomError::Eof { offset: (start + (k - 1) * size) as u64, len: size as u64 },
    }
}

impl TableReader {
    /// Finds the table whose pointer is stored at `offset`, past its placeholder record.
    pub fn new(rom: &[u8], table: &'static str, offset: u64, count: usize, size: usize) -> (r: Result<
        TableReader,
        ReadTableError,
    >)
        requires
            size <= 0x1000,
        ensures
            match r {
                Ok(t) => table_start(rom@, offset as int, size as int) == Ok::<int, RomError>(
                    t.start as int,
                ) && t.table == table && t.size == size && t.count == count,
                Err(e) => table_start(rom@, offset as int, size as int) matches Err(err) && e == (
                ReadTableError { table: table, index: 0, err: err }),
            },
    {
        match read_pointer(rom, offset) {
            Ok(p) => Ok(TableReader { table, start: p + size as u64, size, count }),
            Err(err) => Err(ReadTableError::new(table, 0, err)),
        }
    }

    /// The bytes of record `k`, counted from 1. A table found through `new` lies within
    /// the console's 32-bit address space, as required here.
    pub fn record<'a>(&self, rom: &'a [u8], k: usize) -> (r: Result<&'a [u8], ReadTableError>)
        requires
            1 <= k < self.count <= 0x10000,
            self.size <= 0x1000,
            self.start < 0x2_0000_0000,
        ensures
            match r {
                Ok(b) => record_at(rom@, self.start as int, self.size as int, k as int) == Some(b@),
                Err(e) => record_at(rom@, self.start as int, self.size as int, k as int) is None
                    && e == record_error(self.table, self.start as int, self.size as int, k as int),
            },
    {
        assert((k - 1) * self.size <= 0x1000 * 0x10000) by (nonlinear_arith)
            requires
                1 <= k <= 0x10000,
                self.size <= 0x1000,
        ;
        let at = self.start + ((k - 1) * self.size) as u64;
        match check_bounds(rom, at, self.size as u64) {
            Ok(()) => {
                let n = rom.len();
                assert(at + self.size <= n);
                Ok(vstd::slice::slice_subrange(rom, at as usize, at as usize + self.size))
            },
            Err(err) => Err(ReadTableError::new(self.table, k, err)),
        }
    }
}

/// Decodes the first `n` entries with `f`, stopping at the first that fails.
pub open spec fn decode_prefix<T>(n: nat, f: spec_fn(int) -> Result<T, ReadRomError>) -> Result<
    Seq<T>,
    ReadRomError,
>
    decreases n,
{
    if n == 0 {
        Ok(Seq::empty())
    } else {
        match decode_prefix((n - 1) as nat, f) {
            Err(e) => Err(e),
            Ok(s) => match f(n - 1) {
                Err(e) => Err(e),
                Ok(x) => Ok(s.push(x)),
            },
        }
    }
}

/// Once an entry fails, decoding more entries fails the same way.
proof fn lemma_decode_prefix_error_persists<T>(
    j: nat,
    k: nat,
    f: spec_fn(int) -> Result<T, ReadRomError>,
)
    requires
        j <= k,
        decode_prefix(j, f) is Err,
    ensures
        decode_prefix(k, f) == decode_prefix(j, f),
    decreases k - j,
{
    if j < k {
        lemma_decode_prefix_error_persists(j, (k - 1) as nat, f);
    }
}

/// Ability entry `i` (record `i + 1`): its name, decoded strictly.
pub open spec fn ability_entry(rom: Seq<u8>, start: int, i: int) -> Result<Seq<char>, ReadRomError> {
    match record_at(rom, start, ABILITY_NAME_SIZE as int, i + 1) {
        None => Err(
            ReadRomError::ReadTable(
                record_error("gAbilityNames", start, ABILITY_NAME_SIZE as int, i + 1),
            ),
        ),
        Some(b) => match strict_text(b) {
            StrictText::Text(t) => Ok(t),
            StrictText::Failed { .. } => Err(ReadRomError::Validation(text_error("name", b))),
        },
    }
}

/// The ability names of the image.
pub open spec fn abilities_of(rom: Seq<u8>) -> Result<Seq<Seq<char>>, ReadRomError> {
    match table_start(rom, ABILITY_NAMES_OFFSET as int, ABILITY_NAME_SIZE as int) {
        Err(e) => Err(
            ReadRomError::ReadTable(ReadTableError { table: "gAbilityNames", index: 0, err: e }),
        ),
        Ok(start) => decode_prefix(
            (ABILITY_COUNT - 1) as nat,
            |i: int| ability_entry(rom, start, i),
        ),
    }
}

impl Ability {
    /// Converts a stored ability name, decoded strictly.
    pub fn try_from(raw: RawAbilityName) -> (r: Result<Ability, ValidationError>)
        ensures
            match r {
                Ok(a) => strict_text(raw.0@) == StrictText::Text(a.name@),
                Err(e) => strict_text(raw.0@) is Failed && e == text_error("name", raw.0@),
            },
    {
        Ok(Ability { name: parse_field("name", raw.0.as_slice())? })
    }
}

/// What a decoded item holds.
pub struct ItemData {
    pub name: Seq<char>,
    pub price: u16,
    pub pocket: ItemPocket,
    pub item_type: ItemType,
}

/// The decoded item as plain values.
pub open spec fn item_data(it: Item) -> ItemData {
    ItemData { name: it.name@, price: it.price, pocket: it.pocket, item_type: it.item_type }
}

/// The item that the record `b` holds, or the first of its fields that fails: the name,
/// the pocket, then the type.
pub open spec fn item_from_record(b: Seq<u8>) -> Result<ItemData, ValidationError> {
    let name = b.subrange(0, 14);
    match strict_text(name) {
        StrictText::Failed { .. } => Err(text_error("name", name)),
        StrictText::Text(t) => match pocket_of(b[26]) {
            None => Err(ValidationError { field: "pocket", problem: Problem::Pocket(b[26]) }),
            Some(pocket) => match item_type_of(b[27]) {
                None => Err(ValidationError { field: "type", problem: Problem::ItemType(b[27]) }),
                Some(item_type) => Ok(
                    ItemData { name: t, price: le_u16(b, 16), pocket: pocket, item_type: item_type },
                ),
            },
        },
    }
}

impl Item {
    /// Converts an item record.
    pub fn try_from(b: &[u8]) -> (r: Result<Item, ValidationError>)
        requires
            b@.len() == ITEM_RECORD_SIZE,
        ensures
            match r {
                Ok(it) => item_from_record(b@) == Ok::<ItemData, ValidationError>(item_data(it)),
                Err(e) => item_from_record(b@) == Err::<ItemData, ValidationError>(e),
            },
    {
        let name_bytes = vstd::slice::slice_subrange(b, 0, 14);
        let name = parse_field("name", name_bytes)?;
        let raw = RawItem { price: read_u16_le(b, 16), pocket: b[26], item_type: b[27] };
        let pocket = map_pocket(raw.pocket)?;
        let item_type = map_item_type(raw.item_type)?;
        Ok(Item { name, price: raw.price, pocket, item_type })
    }
}

/// Item entry `i` (record `i + 1`).
pub open spec fn item_entry(rom: Seq<u8>, start: int, i: int) -> Result<ItemData, ReadRomError> {
    match record_at(rom, start, ITEM_RECORD_SIZE as int, i + 1) {
        None => Err(
            ReadRomError::ReadTable(record_error("gItems", start, ITEM_RECORD_SIZE as int, i + 1)),
        ),
        Some(b) => match item_from_record(b) {
            Ok(it) => Ok(it),
            Err(e) => Err(ReadRomError::Validation(e)),
        },
    }
}

/// The items of the image.
pub open spec fn items_of(rom: Seq<u8>) -> Result<Seq<ItemData>, ReadRomError> {
    match table_start(rom, ITEMS_OFFSET as int, ITEM_RECORD_SIZE as int) {
        Err(e) => Err(ReadRomError::ReadTable(ReadTableError { table: "gItems", index: 0, err: e })),
        Ok(start) => decode_prefix((ITEM_COUNT - 1) as nat, |i: int| item_entry(rom, start, i)),
    }
}


/// Species name entry `i` (record `i + 1`): its bytes.
pub open spec fn name_entry(rom: Seq<u8>, start: int, i: int) -> Result<Seq<u8>, ReadRomError> {
    match record_at(rom, start, POKEMON_NAME_SIZE as int, i + 1) {
        None => Err(
            ReadRomError::ReadTable(
                record_error("gSpeciesNames", start, POKEMON_NAME_SIZE as int, i + 1),
            ),
        ),
        Some(b) => Ok(b),
    }
}

/// Base-stats entry `i` (record `i + 1`).
pub open spec fn stats_entry(rom: Seq<u8>, start: int, i: int) -> Result<RawBaseStats, ReadRomError> {
    match record_at(rom, start, BASE_STATS_RECORD_SIZE as int, i + 1) {
        None => Err(
            ReadRomError::ReadTable(
                record_error("gBaseStats", start, BASE_STATS_RECORD_SIZE as int, i + 1),
            ),
        ),
        Some(b) => Ok(base_stats_from(b)),
    }
}

/// Every species' stored name and base stats: the whole name table is read first,
/// then the base-stats table.
pub open spec fn raw_species_of(rom: Seq<u8>) -> Result<Seq<(Seq<u8>, RawBaseStats)>, ReadRomError> {
    let n = (SPECIES_COUNT - 1) as nat;
    match table_start(rom, SPECIES_NAMES_OFFSET as int, POKEMON_NAME_SIZE as int) {
        Err(e) => Err(
            ReadRomError::ReadTable(ReadTableError { table: "gSpeciesNames", index: 0, err: e }),
        ),
        Ok(ns) => match decode_prefix(n, |i: int| name_entry(rom, ns, i)) {
            Err(e) => Err(e),
            Ok(names) => match table_start(
                rom,
                BASE_STATS_OFFSET as int,
                BASE_STATS_RECORD_SIZE as int,
            ) {
                Err(e) => Err(
                    ReadRomError::ReadTable(
                        ReadTableError { table: "gBaseStats", index: 0, err: e },
                    ),
                ),
                Ok(ss) => match decode_prefix(n, |i: int| stats_entry(rom, ss, i)) {
                    Err(e) => Err(e),
                    Ok(stats) => Ok(Seq::new(n, |i: int| (names[i], stats[i]))),
                },
            },
        },
    }
}

/// The view of species records.
pub open spec fn raw_species_view(v: Seq<RawPokemon>) -> Seq<(Seq<u8>, RawBaseStats)> {
    v.map_values(|p: RawPokemon| (p.name.0@, p.value))
}

impl Named<RawPokemonName, RawBaseStats> {
    /// Reads every species' stored name and base stats.
    pub fn read_all(rom: &[u8]) -> (r: Result<Vec<RawPokemon>, ReadRomError>)
        ensures
            match r {
                Ok(v) => raw_species_of(rom@) == Ok::<_, ReadRomError>(raw_species_view(v@))
                    && forall|i: int| 0 <= i < v@.len() ==> (#[trigger] v@[i]).name.0@.len() == POKEMON_NAME_SIZE,
                Err(e) => raw_species_of(rom@) == Err::<Seq<(Seq<u8>, RawBaseStats)>, _>(e),
            },
    {
        let n = SPECIES_COUNT - 1;
        let names_table = match TableReader::new(
            rom,
            "gSpeciesNames",
            SPECIES_NAMES_OFFSET,
            SPECIES_COUNT,
            POKEMON_NAME_SIZE,
        ) {
            Ok(t) => t,
            Err(e) => {
                return Err(ReadRomError::ReadTable(e));
            },
        };
        let ghost ns = names_table.start as int;
        let ghost fname = |i: int| name_entry(rom@, ns, i);
        let mut names: Vec<Vec<u8>> = Vec::new();
        let mut i: usize = 0;
        assert(names@.map_values(|b: Vec<u8>| b@) =~= Seq::<Seq<u8>>::empty());
        while i < n
            invariant
                i <= n == SPECIES_COUNT - 1,
                names@.len() == i,
                names_table.start == ns,
                table_start(rom@, SPECIES_NAMES_OFFSET as int, POKEMON_NAME_SIZE as int) == Ok::<
                    int,
                    RomError,
                >(ns),
                names_table.size == POKEMON_NAME_SIZE,
                names_table.count == SPECIES_COUNT,
                names_table.table == "gSpeciesNames",
                names_table.start < 0x2_0000_0000,
                fname == (|i: int| name_entry(rom@, ns, i)),
                decode_prefix(i as nat, fname) == Ok::<_, ReadRomError>(
                    names@.map_values(|b: Vec<u8>| b@),
                ),
                forall|k: int| 0 <= k < i ==> (#[trigger] names@[k])@.len() == POKEMON_NAME_SIZE,
            decreases n - i,
        {
            match names_table.record(rom, i + 1) {
                Ok(b) => {
                    let ghost before = names@;
                    names.push(vstd::slice::slice_to_vec(b));
                    assert(names@.map_values(|b: Vec<u8>| b@) =~= before.map_values(
                        |b: Vec<u8>| b@,
                    ).push(b@));
                },
                Err(e) => {
                    proof {
                        assert(fname(i as int) == Err::<Seq<u8>, ReadRomError>(ReadRomError::ReadTable(e)));
                        assert(decode_prefix((i + 1) as nat, fname) == Err::<Seq<Seq<u8>>, ReadRomError>(ReadRomError::ReadTable(e)));
                        lemma_decode_prefix_error_persists((i + 1) as nat, n as nat, fname);
                    }
                    return Err(ReadRomError::ReadTable(e));
                },
            }
            i += 1;
        }
        let stats_table = match TableReader::new(
            rom,
            "gBaseStats",
            BASE_STATS_OFFSET,
            SPECIES_COUNT,
            BASE_STATS_RECORD_SIZE,
        ) {
            Ok(t) => t,
            Err(e) => {
                return Err(ReadRomError::ReadTable(e));
            },
        };
        let ghost ss = stats_table.start as int;
        let ghost fstats = |i: int| stats_entry(rom@, ss, i);
        let mut result: Vec<RawPokemon> = Vec::new();
        let mut j: usize = 0;
        assert(result@.map_values(|p: RawPokemon| p.value) =~= Seq::<RawBaseStats>::empty());
        while j < n
            invariant
                j <= n == SPECIES_COUNT - 1,
                names@.len() == n,
                forall|k: int| 0 <= k < n ==> (#[trigger] names@[k])@.len() == POKEMON_NAME_SIZE,
                stats_table.start == ss,
                table_start(rom@, SPECIES_NAMES_OFFSET as int, POKEMON_NAME_SIZE as int) == Ok::<
                    int,
                    RomError,
                >(ns),
                table_start(rom@, BASE_STATS_OFFSET as int, BASE_STATS_RECORD_SIZE as int) == Ok::<
                    int,
                    RomError,
                >(ss),
                fname == (|i: int| name_entry(rom@, ns, i)),
                decode_prefix(n as nat, fname) == Ok::<_, ReadRomError>(
                    names@.map_values(|b: Vec<u8>| b@),
                ),
                stats_table.size == BASE_STATS_RECORD_SIZE,
                stats_table.count == SPECIES_COUNT,
                stats_table.table == "gBaseStats",
                stats_table.start < 0x2_0000_0000,
                fstats == (|i: int| stats_entry(rom@, ss, i)),
                result@.len() == j,
                forall|k: int| 0 <= k < j ==> (#[trigger] result@[k]).name.0@ == names@[k]@,
                forall|k: int| 0 <= k < j ==> (#[trigger] result@[k]).name.0@.len() == POKEMON_NAME_SIZE,
                decode_prefix(j as nat, fstats) == Ok::<_, ReadRomError>(
                    result@.map_values(|p: RawPokemon| p.value),
                ),
            decreases n - j,
        {
            match stats_table.record(rom, j + 1) {
                Ok(b) => {
                    let ghost before = result@;
                    let value = RawBaseStats::from_bytes(b);
                    result.push(Named { name: RawPokemonName(names[j].clone()), value });
                    assert(result@.map_values(|p: RawPokemon| p.value) =~= before.map_values(
                        |p: RawPokemon| p.value,
                    ).push(value));
                },
                Err(e) => {
                    proof {
                        assert(fstats(j as int) == Err::<RawBaseStats, ReadRomError>(ReadRomError::ReadTable(e)));
                        assert(decode_prefix((j + 1) as nat, fstats) == Err::<Seq<RawBaseStats>, ReadRomError>(ReadRomError::ReadTable(e)));
                        lemma_decode_prefix_error_persists((j + 1) as nat, n as nat, fstats);
                    }
                    return Err(ReadRomError::ReadTable(e));
                },
            }
            j += 1;
        }
        assert(raw_species_view(result@) =~= raw_species_of(rom@)->Ok_0);
        Ok(result)
    }
}


/// Whether species entry `i` converts.
pub open spec fn species_entry(pairs: Seq<(Seq<u8>, RawBaseStats)>, i: int) -> Result<
    (),
    ReadRomError,
> {
    match species_check(pairs[i].0, pairs[i].1) {
        None => Ok(()),
        Some(e) => Err(ReadRomError::Validation(e)),
    }
}

/// Why the image's tables cannot be decoded, trying abilities, items, then species; none
/// if they all can.
pub open spec fn read_rom_error(rom: Seq<u8>) -> Option<ReadRomError> {
    match abilities_of(rom) {
        Err(e) => Some(e),
        Ok(_) => match items_of(rom) {
            Err(e) => Some(e),
            Ok(_) => match raw_species_of(rom) {
                Err(e) => Some(e),
                Ok(pairs) => match decode_prefix(
                    (SPECIES_COUNT - 1) as nat,
                    |i: int| species_entry(pairs, i),
                ) {
                    Err(e) => Some(e),
                    Ok(_) => None,
                },
            },
        },
    }
}

fn read_abilities(rom: &[u8]) -> (r: Result<Vec<Ability>, ReadRomError>)
    ensures
        match r {
            Ok(v) => abilities_of(rom@) == Ok::<_, ReadRomError>(v@.map_values(|a: Ability| a.name@)),
            Err(e) => abilities_of(rom@) == Err::<Seq<Seq<char>>, _>(e),
        },
{
    let n = ABILITY_COUNT - 1;
    let table = match TableReader::new(rom, "gAbilityNames", ABILITY_NAMES_OFFSET, ABILITY_COUNT, ABILITY_NAME_SIZE) {
        Ok(t) => t,
        Err(e) => {
            return Err(ReadRomError::ReadTable(e));
        },
    };
    let ghost start = table.start as int;
    let ghost f = |i: int| ability_entry(rom@, start, i);
    let mut result: Vec<Ability> = Vec::new();
    let mut i: usize = 0;
    assert(result@.map_values(|a: Ability| a.name@) =~= Seq::<Seq<char>>::empty());
    while i < n
        invariant
            i <= n == ABILITY_COUNT - 1,
            table.start == start,
            table.size == ABILITY_NAME_SIZE,
            table.count == ABILITY_COUNT,
            table.table == "gAbilityNames",
            table.start < 0x2_0000_0000,
            table_start(rom@, ABILITY_NAMES_OFFSET as int, ABILITY_NAME_SIZE as int) == Ok::<int, RomError>(start),
            f == (|i: int| ability_entry(rom@, start, i)),
            decode_prefix(i as nat, f) == Ok::<_, ReadRomError>(result@.map_values(|a: Ability| a.name@)),
        decreases n - i,
    {
        let b = match table.record(rom, i + 1) {
            Ok(b) => b,
            Err(e) => {
                proof {
                    assert(f(i as int) == Err::<Seq<char>, ReadRomError>(ReadRomError::ReadTable(e)));
                    lemma_decode_prefix_error_persists((i + 1) as nat, n as nat, f);
                }
                return Err(ReadRomError::ReadTable(e));
            },
        };
        match Ability::try_from(RawAbilityName(vstd::slice::slice_to_vec(b))) {
            Ok(a) => {
                let ghost before = result@;
                result.push(a);
                assert(result@.map_values(|a: Ability| a.name@) =~= before.map_values(|a: Ability| a.name@).push(a.name@));
            },
            Err(e) => {
                proof {
                    assert(f(i as int) == Err::<Seq<char>, ReadRomError>(ReadRomError::Validation(e)));
                    lemma_decode_prefix_error_persists((i + 1) as nat, n as nat, f);
                }
                return Err(ReadRomError::Validation(e));
            },
        }
        i += 1;
    }
    Ok(result)
}

fn read_items(rom: &[u8]) -> (r: Result<Vec<Item>, ReadRomError>)
    ensures
        match r {
            Ok(v) => items_of(rom@) == Ok::<_, ReadRomError>(v@.map_values(|it: Item| item_data(it))),
            Err(e) => items_of(rom@) == Err::<Seq<ItemData>, _>(e),
        },
{
    let n = ITEM_COUNT - 1;
    let table = match TableReader::new(rom, "gItems", ITEMS_OFFSET, ITEM_COUNT, ITEM_RECORD_SIZE) {
        Ok(t) => t,
        Err(e) => {
            return Err(ReadRomError::ReadTable(e));
        },
    };
    let ghost start = table.start as int;
    let ghost f = |i: int| item_entry(rom@, start, i);
    let mut result: Vec<Item> = Vec::new();
    let mut i: usize = 0;
    assert(result@.map_values(|it: Item| item_data(it)) =~= Seq::<ItemData>::empty());
    while i < n
        invariant
            i <= n == ITEM_COUNT - 1,
            table.start == start,
            table.size == ITEM_RECORD_SIZE,
            table.count == ITEM_COUNT,
            table.table == "gItems",
            table.start < 0x2_0000_0000,
            table_start(rom@, ITEMS_OFFSET as int, ITEM_RECORD_SIZE as int) == Ok::<int, RomError>(start),
            f == (|i: int| item_entry(rom@, start, i)),
            decode_prefix(i as nat, f) == Ok::<_, ReadRomError>(result@.map_values(|it: Item| item_data(it))),
        decreases n - i,
    {
        let b = match table.record(rom, i + 1) {
            Ok(b) => b,
            Err(e) => {
                proof {
                    assert(f(i as int) == Err::<ItemData, ReadRomError>(ReadRomError::ReadTable(e)));
                    lemma_decode_prefix_error_persists((i + 1) as nat, n as nat, f);
                }
                return Err(ReadRomError::ReadTable(e));
            },
        };
        match Item::try_from(b) {
            Ok(it) => {
                let ghost before = result@;
                result.push(it);
                assert(result@.map_values(|it: Item| item_data(it)) =~= before.map_values(|it: Item| item_data(it)).push(item_data(it)));
            },
            Err(e) => {
                proof {
                    assert(f(i as int) == Err::<ItemData, ReadRomError>(ReadRomError::Validation(e)));
                    lemma_decode_prefix_error_persists((i + 1) as nat, n as nat, f);
                }
                return Err(ReadRomError::Validation(e));
            },
        }
        i += 1;
    }
    Ok(result)
}

/// Decodes the image's ability, item and species tables; the move table is left empty.
pub fn read_rom(rom: &[u8]) -> (r: Result<Rom, ReadRomError>)
    ensures
        match r {
            Err(e) => read_rom_error(rom@) == Some(e),
            Ok(t) => {
                let pairs = raw_species_of(rom@)->Ok_0;
                &&& read_rom_error(rom@) is None
                &&& abilities_of(rom@) == Ok::<_, ReadRomError>(t.abilities@.map_values(|a: Ability| a.name@))
                &&& items_of(rom@) == Ok::<_, ReadRomError>(t.items@.map_values(|it: Item| item_data(it)))
                &&& t.moves@.len() == 0
                &&& t.species@.len() == pairs.len()
                &&& forall|i: int| 0 <= i < pairs.len() ==> species_converted(pairs[i].0, pairs[i].1, #[trigger] t.species@[i])
            },
        },
{
    let abilities = read_abilities(rom)?;
    let items = read_items(rom)?;
    let raw = Named::<RawPokemonName, RawBaseStats>::read_all(rom)?;
    let ghost pairs = raw_species_view(raw@);
    let ghost f = |i: int| species_entry(pairs, i);
    let n = raw.len();
    let mut species: Vec<Species> = Vec::new();
    let mut raw = raw;
    let mut i: usize = 0;
    while i < n
        invariant
            n == pairs.len() == SPECIES_COUNT - 1,
            i <= n,
            raw@.len() == n,
            raw_species_of(rom@) == Ok::<_, ReadRomError>(pairs),
            abilities_of(rom@) is Ok,
            items_of(rom@) is Ok,
            forall|k: int| 0 <= k < n ==> (#[trigger] raw@[k]).name.0@ == pairs[k].0 && raw@[k].value == pairs[k].1,
            forall|k: int| 0 <= k < n ==> (#[trigger] raw@[k]).name.0@.len() == POKEMON_NAME_SIZE,
            f == (|i: int| species_entry(pairs, i)),
            decode_prefix(i as nat, f) is Ok,
            species@.len() == i,
            forall|k: int| 0 <= k < i ==> species_converted(pairs[k].0, pairs[k].1, #[trigger] species@[k]),
        decreases n - i,
    {
        let entry = Named { name: RawPokemonName(raw[i].name.0.clone()), value: raw[i].value };
        match Species::try_from(entry) {
            Ok(s) => {
                species.push(s);
            },
            Err(e) => {
                proof {
                    assert(f(i as int) == Err::<(), ReadRomError>(ReadRomError::Validation(e)));
                    lemma_decode_prefix_error_persists((i + 1) as nat, n as nat, f);
                }
                return Err(ReadRomError::Validation(e));
            },
        }
        i += 1;
    }
    Ok(Rom { abilities, items, moves: Vec::new(), species })
}

} // verus!
