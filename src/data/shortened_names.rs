//! Species names that the game stores shortened to ten characters.
use vstd::prelude::*;

verus! {

/// Bytes of a stored name that the hash reads.
pub const HASHED_NAME_LENGTH: usize = 10;

/// The hash of the first `k` bytes of `s`: each step takes 37 minus the hash so far,
/// plus the byte, wrapping at 32 bits.
pub open spec fn name_hash_prefix(s: Seq<u8>, k: nat) -> u32
    decreases k,
{
    if k == 0 {
        0
    } else {
        let h = name_hash_prefix(s, (k - 1) as nat);
        ((37 - h as int + s[k - 1] as int) % 0x1_0000_0000) as u32
    }
}

/// The hash of a stored name: of its first ten bytes.
pub open spec fn name_hash_of(s: Seq<u8>) -> u32 {
    name_hash_prefix(s, HASHED_NAME_LENGTH as nat)
}

/// The full name for a hash of a shortened stored name, if the hash is one of them.
/// Where several shortened names share a hash, the first listed wins.
pub open spec fn full_name_for(hash: u32) -> Option<&'static str> {
    if hash == 0x4d {
        Some("Fletchinder")
    } else if hash == 0x19 {
        Some("Crabominable")
    } else if hash == 0x15 {
        Some("Barraskewda")
    } else if hash == 0x28 {
        Some("Centiskorch")
    } else if hash == 0x3d {
        Some("Corviknight")
    } else if hash == 0x2e {
        Some("Stonjourner")
    } else {
        None
    }
}

/// Hashes the first ten bytes of a stored name.
pub fn name_hash(s: &[u8]) -> (r: u32)
    requires
        s@.len() >= HASHED_NAME_LENGTH,
    ensures
        r == name_hash_of(s@),
{
    let mut h: u32 = 0;
    let mut i: usize = 0;
    while i < HASHED_NAME_LENGTH
        invariant
            i <= HASHED_NAME_LENGTH <= s@.len(),
            h == name_hash_prefix(s@, i as nat),
        decreases HASHED_NAME_LENGTH - i,
    {
        h = 37u32.wrapping_sub(h).wrapping_add(s[i] as u32);
        i += 1;
    }
    h
}

/// The full name of a species whose stored name was shortened, found by the hash of
/// the stored name. The hashes are those of the shortened spellings Fletchindr,
/// Crabminble, Baraskewda, Centskorch, Corvsquire, Corvknight, Stonjorner, Poltegeist
/// and Blacphalon.
pub fn expand_name(rom_name: &[u8]) -> (r: Option<&'static str>)
    requires
        rom_name@.len() >= HASHED_NAME_LENGTH,
    ensures
        r == full_name_for(name_hash_of(rom_name@)),
{
    let hash = name_hash(rom_name);
    if hash == 0x4d {
        Some("Fletchinder")
    } else if hash == 0x19 {
        Some("Crabominable")
    } else if hash == 0x15 {
        Some("Barraskewda")
    } else if hash == 0x28 {
        Some("Centiskorch")
    } else if hash == 0x3d {
        Some("Corviknight")
    } else if hash == 0x2e {
        Some("Stonjourner")
    } else {
        None
    }
}

} // verus!
