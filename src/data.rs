//! Game data tables in the layout of an extended cartridge image.
pub mod mapping;
pub mod model;
pub mod read;
pub mod shortened_names;
pub mod tables;
