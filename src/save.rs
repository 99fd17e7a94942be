//! The redundant, checksum-protected save file: sectors, slots and the blocks they hold.
pub mod checksum;
pub mod error;
pub mod pokemon;
pub mod section;
pub mod sector;
