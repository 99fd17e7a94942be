//! Identifiers of species: the game's internal index and the national number.
use vstd::prelude::*;

verus! {

/// How far the player has got with an entry.
#[derive(Debug, Copy, Clone, PartialEq, Eq, Structural)]
pub enum PokedexStatus {
    Seen,
    Caught,
}

/// A species as the game indexes it internally.
#[derive(Copy, Clone, Debug, PartialEq, Eq, Hash, Structural)]
pub struct SpeciesId(pub u16);

/// A species by its national number.
#[derive(Copy, Clone, Debug, PartialEq, Eq, Hash, Structural)]
pub struct NationalDexId(pub u16);

impl From<u16> for SpeciesId {
    fn from(id: u16) -> (r: SpeciesId)
        ensures
            r == SpeciesId(id),
    {
        SpeciesId(id)
    }
}

impl vstd::std_specs::convert::FromSpecImpl<u16> for SpeciesId {
    open spec fn obeys_from_spec() -> bool {
        true
    }

    open spec fn from_spec(id: u16) -> SpeciesId {
        SpeciesId(id)
    }
}

impl From<u16> for NationalDexId {
    fn from(id: u16) -> (r: NationalDexId)
        ensures
            r == NationalDexId(id),
    {
        NationalDexId(id)
    }
}

impl vstd::std_specs::convert::FromSpecImpl<u16> for NationalDexId {
    open spec fn obeys_from_spec() -> bool {
        true
    }

    open spec fn from_spec(id: u16) -> NationalDexId {
        NationalDexId(id)
    }
}

} // verus!
