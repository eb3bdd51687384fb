# foxgame

The data, rules and editor logic of a small tile-based platformer, with its level pack file
format, written in Verus and proved against contracts; `app/` is the window around them
(macroquad), and `tests/` run the library on concrete values.

## Library (`src/`)

- `tile`, `tile_data`, `things`, `entity`, `player_kinds`: the tiles, doors, signs and entity
  kinds, the bytes each is saved as, and what each tile is (name, texture, collision).
- `codec`, `level_pack_data`, `roundtrip`, `editor_save`: the pack file format as functions on
  byte sequences, the code that writes and reads it, and the proofs that reading what was written
  gives back the pack, and that opening a saved pack in the editor gives back what was saved.
- `grid`, `editor_level`, `editor_level_pack`, `level_view`, `object_selector`, `sign_popup`,
  `editor_menu`, `text_edit`: the editor: resizing levels, placing things, packs of levels, the
  menu's controls, popups and help pages, and typing.
- `level`, `game`, `crate_entity`, `collision`, `sign_display`: a level being played (locks,
  switches, hitting tiles, connected textures) and the progress through a pack.
- `ui`, `menu`, `font`: buttons, sliders, tooltips, the pack list and the fonts' characters.
