//! The table of move names.
use vstd::prelude::*;
use super::read::{pointed_string_list, read_pointer, read_string_list, RomError};

verus! {

/// Moves in the table.
pub const NUM_MOVES: usize = 0x380;

/// Characters of a move name, not counting its terminator.
pub const MOVE_NAME_LENGTH: usize = 12;

/// Where the pointer to the move names is stored.
pub const MOVE_NAMES_OFFSET: u64 = 0x04EF84;

/// One move.
#[derive(Debug, Clone)]
pub struct Move {
    pub name: String,
}

/// The moves, by id.
#[derive(Debug, Clone)]
pub struct MoveTable {
    pub moves: Vec<Move>,
}

impl View for MoveTable {
    type V = Seq<Seq<char>>;

    open spec fn view(&self) -> Seq<Seq<char>> {
        self.moves@.map_values(|m: Move| m.name@)
    }
}

impl MoveTable {
    /// Reads the move names from the image.
    pub fn load(rom: &[u8]) -> (r: Result<MoveTable, RomError>)
        ensures
            match r {
                Ok(t) => pointed_string_list(
                    rom@,
                    MOVE_NAMES_OFFSET as int,
                    NUM_MOVES as int,
                    MOVE_NAME_LENGTH + 1,
                ) == Ok::<Seq<Seq<char>>, RomError>(t@),
                Err(e) => pointed_string_list(
                    rom@,
                    MOVE_NAMES_OFFSET as int,
                    NUM_MOVES as int,
                    MOVE_NAME_LENGTH + 1,
                ) == Err::<Seq<Seq<char>>, RomError>(e),
            },
    {
        let ptr = read_pointer(rom, MOVE_NAMES_OFFSET)?;
        let names = read_string_list(rom, ptr, NUM_MOVES, MOVE_NAME_LENGTH + 1)?;
        let mut moves: Vec<Move> = Vec::new();
        let mut i: usize = 0;
        while i < names.len()
            invariant
                i <= names@.len(),
                moves@.len() == i,
                forall|k: int| 0 <= k < i ==> #[trigger] moves@[k].name@ == names@[k]@,
            decreases names@.len() - i,
        {
            moves.push(Move { name: names[i].clone() });
            i += 1;
        }
        let t = MoveTable { moves };
        assert(t@ =~= names@.map_values(|s: String| s@));
        Ok(t)
    }

    /// The move with id `move_id`, if the table has one.
    pub fn get_by_move_id(&self, move_id: u16) -> (r: Option<&Move>)
        ensures
            match r {
                Some(m) => move_id < self.moves@.len() && *m == self.moves@[move_id as int],
                None => move_id >= self.moves@.len(),
            },
    {
        let i = move_id as usize;
        if i < self.moves.len() {
            Some(&self.moves[i])
        } else {
            None
        }
    }
}

} // verus!
