//! Decoder for the battery-backed save memory of a handheld game cartridge,
//! with the text codec and the fixed-layout records it reads.
pub mod bytes;
pub mod data;
pub mod encoding;
pub mod pokedex;
pub mod rom;
pub mod save;
