//! Game logic behind the dragon's-lair idle game's user interface: colour
//! shading, widget interaction, pixel edits, sprite sheets, map tiles, unit
//! drawing plans, draw batching, lair objects, number layouts, music control
//! and window events.

pub mod colour;
pub mod interaction;
pub mod pixels;
pub mod image_data;
pub mod loader;
pub mod sprite_sheet;
pub mod tiles;
pub mod units;
pub mod batching;
pub mod lair;
pub mod number_format;
pub mod music;
pub mod events;
pub mod screens;
