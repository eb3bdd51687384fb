//! Level data, tiles and editor logic of a small platformer.

pub mod tile;
pub mod tile_data;
pub mod level;
pub mod things;
pub mod player_kinds;
pub mod entity;
pub mod font;
pub mod grid;
pub mod codec;
pub mod level_pack_data;
pub mod roundtrip;
pub mod editor_save;
pub mod editor_level;
pub mod editor_level_pack;
pub mod ui;
pub mod sign_display;
pub mod collision;
pub mod menu;
pub mod object_selector;
pub mod editor_menu;
pub mod text_edit;
pub mod sign_popup;
pub mod level_view;
pub mod game;
pub mod crate_entity;
