//! The table of items: names, ids and prices.
use vstd::prelude::*;
use crate::bytes::{le_u16, read_u16_le};
use crate::encoding::{lossy_text, parse_string_lossy};
use super::read::{check_bounds, in_bounds, pointer_at, read_pointer, RomError};

verus! {

/// Items in the table.
pub const NUM_ITEMS: usize = 1268;

/// Where the pointer to the item records is stored.
pub const ITEMS_OFFSET: u64 = 0x01C8;

/// Characters of an item name, not counting its terminator.
pub const ITEM_NAME_LENGTH: usize = 13;

/// Bytes of one item record.
pub const ITEM_RECORD_SIZE: usize = 0x2C;

/// Bytes of an item record that are read: name, id and price.
pub const ITEM_FIELDS_SIZE: usize = ITEM_NAME_LENGTH + 1 + 4;

/// What an item record holds.
pub struct ItemView {
    pub id: u16,
    pub name: Seq<char>,
    pub price: u16,
}

/// One item.
#[derive(Debug, Clone)]
pub struct Item {
    pub id: u16,
    pub name: String,
    pub price: u16,
}

impl View for Item {
    type V = ItemView;

    open spec fn view(&self) -> ItemView {
        ItemView { id: self.id, name: self.name@, price: self.price }
    }
}

/// The item record at `offset` of the image.
pub open spec fn item_at(rom: Seq<u8>, offset: int) -> Result<ItemView, RomError> {
    if !in_bounds(rom.len() as int, offset, ITEM_FIELDS_SIZE as int) {
        Err(RomError::Eof { offset: offset as u64, len: ITEM_FIELDS_SIZE as u64 })
    } else {
        Ok(
            ItemView {
                name: lossy_text(rom.subrange(offset, offset + ITEM_NAME_LENGTH + 1)),
                id: le_u16(rom, offset + ITEM_NAME_LENGTH + 1),
                price: le_u16(rom, offset + ITEM_NAME_LENGTH + 3),
            },
        )
    }
}

/// The first `k` item records from `start`, or the error of the first that cannot be read.
pub open spec fn item_list(rom: Seq<u8>, start: int, k: nat) -> Result<Seq<ItemView>, RomError>
    decreases k,
{
    if k == 0 {
        Ok(Seq::empty())
    } else {
        match item_list(rom, start, (k - 1) as nat) {
            Err(e) => Err(e),
            Ok(items) => match item_at(rom, start + (k - 1) * ITEM_RECORD_SIZE) {
                Err(e) => Err(e),
                Ok(it) => Ok(items.push(it)),
            },
        }
    }
}

/// Once a record cannot be read, the list fails with that record's error however long it is.
proof fn lemma_item_list_error_persists(rom: Seq<u8>, start: int, j: nat, k: nat)
    requires
        j <= k,
        item_list(rom, start, j) is Err,
    ensures
        item_list(rom, start, k) == item_list(rom, start, j),
    decreases k - j,
{
    if j < k {
        lemma_item_list_error_persists(rom, start, j, (k - 1) as nat);
    }
}

/// The item table that the image holds.
pub open spec fn item_table(rom: Seq<u8>) -> Result<Seq<ItemView>, RomError> {
    match pointer_at(rom, ITEMS_OFFSET as int) {
        Err(e) => Err(e),
        Ok(p) => item_list(rom, p, NUM_ITEMS as nat),
    }
}

impl Item {
    /// Reads the item record at `offset` of the image.
    pub fn load(rom: &[u8], offset: u64) -> (r: Result<Item, RomError>)
        ensures
            match r {
                Ok(it) => item_at(rom@, offset as int) == Ok::<ItemView, RomError>(it@),
                Err(e) => item_at(rom@, offset as int) == Err::<ItemView, RomError>(e),
            },
    {
        check_bounds(rom, offset, ITEM_FIELDS_SIZE as u64)?;
        let n = rom.len();
        assert(offset + ITEM_FIELDS_SIZE <= n);
        let offset = offset as usize;
        let name_end = offset + ITEM_NAME_LENGTH + 1;
        let name = parse_string_lossy(vstd::slice::slice_subrange(rom, offset, name_end));
        let id = read_u16_le(rom, name_end);
        let price = read_u16_le(rom, name_end + 2);
        Ok(Item { id, name, price })
    }
}

/// The items, by id.
#[derive(Debug, Clone)]
pub struct ItemTable {
    pub items: Vec<Item>,
}

impl ItemTable {
    /// Reads the item records from the image.
    pub fn load(rom: &[u8]) -> (r: Result<ItemTable, RomError>)
        ensures
            match r {
                Ok(t) => item_table(rom@) == Ok::<Seq<ItemView>, RomError>(
                    t.items@.map_values(|it: Item| it@),
                ),
                Err(e) => item_table(rom@) == Err::<Seq<ItemView>, RomError>(e),
            },
    {
        let ptr = read_pointer(rom, ITEMS_OFFSET)?;
        let mut items: Vec<Item> = Vec::new();
        assert(items@.map_values(|it: Item| it@) =~= Seq::<ItemView>::empty());
        let mut k: usize = 0;
        while k < NUM_ITEMS
            invariant
                k <= NUM_ITEMS,
                ptr < 0x1_0000_0000,
                pointer_at(rom@, ITEMS_OFFSET as int) == Ok::<int, RomError>(ptr as int),
                item_list(rom@, ptr as int, k as nat) == Ok::<Seq<ItemView>, RomError>(
                    items@.map_values(|it: Item| it@),
                ),
            decreases NUM_ITEMS - k,
        {
            let item = match Item::load(rom, ptr + (k * ITEM_RECORD_SIZE) as u64) {
                Ok(item) => item,
                Err(e) => {
                    proof {
                        lemma_item_list_error_persists(rom@, ptr as int, (k + 1) as nat, NUM_ITEMS as nat);
                    }
                    return Err(e);
                },
            };
            let ghost before = items@;
            items.push(item);
            assert(items@.map_values(|it: Item| it@) =~= before.map_values(|it: Item| it@).push(
                item@,
            ));
            k += 1;
        }
        Ok(ItemTable { items })
    }

    /// The item with id `item_id`, if the table has one.
    pub fn get_by_item_id(&self, item_id: u16) -> (r: Option<&Item>)
        ensures
            match r {
                Some(it) => item_id < self.items@.len() && *it == self.items@[item_id as int],
                None => item_id >= self.items@.len(),
            },
    {
        let i = item_id as usize;
        if i < self.items.len() {
            Some(&self.items[i])
        } else {
            None
        }
    }
}

} // verus!
