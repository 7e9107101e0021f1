# dragon_lair

The rules and decisions behind the user interface of a dragon's-lair idle
game, verified with Verus, and the egui/OpenGL front end around them.

- `src/` — the verified library:
  - `colour`: shading colours for hover and press effects;
  - `interaction`: press/release tracking and widget shading;
  - `pixels`, `image_data`, `loader`, `sprite_sheet`: icon and sprite
    images (decoding and cropping through the `image` crate), pixel edits,
    cutting sheets into frames, frame selection;
  - `tiles`, `units`, `batching`: what the map and the units are drawn as,
    grouping sprites by texture and the quad index lists;
  - `lair`: lair objects, their costs and production, buying them;
  - `number_format`: layouts for showing big numbers and the plan for
    big-number sums;
  - `music`, `events`, `screens`: music control, window events, render
    target size, and which screens and menu entries are shown.
- `app/` — the egui widgets, OpenGL drawing and floating-point arithmetic
  that use the library.
- `tests/` — tests of the library on concrete values.

Public types that differ from the game's own:

- `lair::ResourceAmount` holds whole units (`Option<u64>`) rather than
  floating-point amounts; the amounts the lair objects produce and cost are
  whole numbers.
- `lair::LairObject` holds the experience `level` rather than the whole
  experience record, and leaves out the widget size and icon texture; the
  app's `LairObjectCard` carries those with the experience points.
- `sprite_sheet::SpriteSheet::new` takes the frame textures; cutting a sheet
  into frames is `frame_images`, and the upload to OpenGL is the app's.
- `number_format::sum_plan` is told whether it adds or subtracts: `0 - x`
  gives `-x`, and an operand more than fifteen decimal places below the
  other is dropped whichever side it stands on.
