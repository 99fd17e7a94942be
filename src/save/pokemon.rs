//! A stored creature record: names, ids, moves and bit-packed stats.
use vstd::prelude::*;
use crate::bytes::{le_u16, le_u32, read_u16_le, read_u32_le};
use crate::encoding::{lossy_text, parse_string_lossy};
use crate::pokedex::SpeciesId;

verus! {

/// Bytes of one stored creature record.
pub const RECORD_SIZE: usize = 100;

/// Which of its species' abilities a creature has.
#[derive(Debug, Copy, Clone, PartialEq, Eq, Structural)]
pub enum AbilityIndex {
    First,
    Hidden,
}

/// One known move: its id, remaining uses and bonus uses.
#[derive(Default, Clone, Copy, Debug, PartialEq, Eq, Structural)]
pub struct Move {
    pub id: u16,
    pub pp: u8,
    pub pp_bonus: u8,
}

/// The six per-stat values given in storage order (HP, Attack, Defense, Speed,
/// Special Attack, Special Defense), put in display order (HP, Attack, Defense,
/// Special Attack, Special Defense, Speed).
pub open spec fn canonical_order<T>(s: Seq<T>) -> Seq<T> {
    seq![s[0], s[1], s[2], s[4], s[5], s[3]]
}

/// The 5-bit field `k` (0 to 5, from the least significant end) of a packed word.
pub open spec fn iv_field(raw: u32, k: u32) -> u8 {
    ((raw >> (5 * k)) & 0x1f) as u8
}

/// The 2-bit bonus of move `i` (0 to 3, from the least significant end) of a packed byte.
pub open spec fn pp_bonus_field(raw: u8, i: u8) -> u8 {
    (raw >> (2 * i)) & 0x3
}

/// Move `i` of the record `d`.
pub open spec fn move_of(d: Seq<u8>, i: int) -> Move {
    Move {
        id: le_u16(d, 44 + 2 * i),
        pp: d[52 + i],
        pp_bonus: pp_bonus_field(d[40], i as u8),
    }
}

/// The six 16-bit stats of the record `d`, in storage order.
pub open spec fn stored_stats(d: Seq<u8>) -> Seq<u16> {
    seq![le_u16(d, 88), le_u16(d, 90), le_u16(d, 92), le_u16(d, 94), le_u16(d, 96), le_u16(d, 98)]
}

/// A stored creature.
#[derive(Clone, Debug)]
pub struct Pokemon {
    pub nickname: String,
    pub species: SpeciesId,
    pub otname: String,
    pub markings: [bool; 4],
    pub item: u16,
    pub friendship: u8,
    pub pokeball: u8,
    pub level: u8,
    pub experience: u32,
    pub moves: [Move; 4],
    pub evs: [u8; 6],
    pub ivs: [u8; 6],
    pub current_hp: u16,
    pub stats: [u16; 6],
    pub is_egg: bool,
    pub ability: AbilityIndex,
    pub condition: u32,
}

fn read_move(data: &[u8], i: usize) -> (r: Move)
    requires
        data@.len() >= RECORD_SIZE,
        i < 4,
    ensures
        r == move_of(data@, i as int),
{
    let bonuses = data[40];
    let shift = 2 * i as u8;
    Move { id: read_u16_le(data, 44 + 2 * i), pp: data[52 + i], pp_bonus: (bonuses >> shift) & 0x03 }
}

fn unpack_iv(raw: u32, k: u32) -> (r: u8)
    requires
        k < 6,
    ensures
        r == iv_field(raw, k),
{
    let v = (raw >> (5 * k)) & 0x1f;
    assert(v < 32) by (bit_vector)
        requires
            v == (raw >> (5 * k)) & 0x1f,
    ;
    v as u8
}

impl Pokemon {
    /// Decodes a stored creature from the first `RECORD_SIZE` bytes of `data`. Ids are
    /// passed through as they are; per-stat values are put in display order.
    pub fn from_bytes(data: &[u8]) -> (r: Pokemon)
        requires
            data@.len() >= RECORD_SIZE,
        ensures
            r.nickname@ == lossy_text(data@.subrange(8, 18)),
            r.otname@ == lossy_text(data@.subrange(20, 27)),
            r.markings@ == Seq::new(4, |i: int| data@[27] & (1u8 << (i as u8)) != 0),
            r.species == SpeciesId(le_u16(data@, 32)),
            r.item == le_u16(data@, 34),
            r.experience == le_u32(data@, 36),
            r.friendship == data@[41],
            r.pokeball == data@[42],
            r.moves@ == Seq::new(4, |i: int| move_of(data@, i)),
            r.evs@ == canonical_order(data@.subrange(56, 62)),
            r.ivs@ == canonical_order(Seq::new(6, |k: int| iv_field(le_u32(data@, 72), k as u32))),
            r.is_egg == ((le_u32(data@, 72) >> 30u32) & 1 == 1),
            r.ability == if le_u32(data@, 72) >> 31u32 == 1 {
                AbilityIndex::Hidden
            } else {
                AbilityIndex::First
            },
            r.level == data@[84],
            r.current_hp == le_u16(data@, 86),
            r.stats@ == canonical_order(stored_stats(data@)),
            r.condition == 0,
    {
        let nickname = parse_string_lossy(vstd::slice::slice_subrange(data, 8, 18));
        let otname = parse_string_lossy(vstd::slice::slice_subrange(data, 20, 27));
        let raw_markings = data[27];
        let markings = [
            raw_markings & (1 << 0) != 0,
            raw_markings & (1 << 1) != 0,
            raw_markings & (1 << 2) != 0,
            raw_markings & (1 << 3) != 0,
        ];
        let species = read_u16_le(data, 32);
        let item = read_u16_le(data, 34);
        let experience = read_u32_le(data, 36);
        let friendship = data[41];
        let pokeball = data[42];
        let moves = [read_move(data, 0), read_move(data, 1), read_move(data, 2), read_move(data, 3)];

        // Storage order is HP, Attack, Defense, Speed, Sp. Attack, Sp. Defense.
        let evs = [data[56], data[57], data[58], data[60], data[61], data[59]];

        let raw_ivs = read_u32_le(data, 72);
        let ivs = [
            unpack_iv(raw_ivs, 0),
            unpack_iv(raw_ivs, 1),
            unpack_iv(raw_ivs, 2),
            unpack_iv(raw_ivs, 4),
            unpack_iv(raw_ivs, 5),
            unpack_iv(raw_ivs, 3),
        ];
        // The two bits above the six 5-bit fields: egg, then hidden ability.
        let is_egg = (raw_ivs >> 30) & 1 == 1;
        let has_hidden_ability = (raw_ivs >> 31) == 1;

        let level = data[RECORD_SIZE - 16];
        let current_hp = read_u16_le(data, RECORD_SIZE - 14);
        let stats = [
            read_u16_le(data, 88),
            read_u16_le(data, 90),
            read_u16_le(data, 92),
            read_u16_le(data, 96),
            read_u16_le(data, 98),
            read_u16_le(data, 94),
        ];
        let r = Pokemon {
            nickname,
            species: SpeciesId(species),
            otname,
            markings,
            item,
            friendship,
            pokeball,
            level,
            experience,
            moves,
            evs,
            ivs,
            current_hp,
            stats,
            is_egg,
            ability: if has_hidden_ability {
                AbilityIndex::Hidden
            } else {
                AbilityIndex::First
            },
            condition: 0,
        };
        proof {
            assert(r.markings@ =~= Seq::new(4, |i: int| data@[27] & (1u8 << (i as u8)) != 0));
            assert(r.moves@ =~= Seq::new(4, |i: int| move_of(data@, i)));
            assert(r.evs@ =~= canonical_order(data@.subrange(56, 62)));
            assert(r.ivs@ =~= canonical_order(
                Seq::new(6, |k: int| iv_field(le_u32(data@, 72), k as u32)),
            ));
            assert(r.stats@ =~= canonical_order(stored_stats(data@)));
        }
        r
    }
}

} // verus!
