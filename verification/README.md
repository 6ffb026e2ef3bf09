# taled_editor

The verified core of Taled, a touch-first editor for Tiled tile maps.
Everything under `src/` is checked by Verus against its contracts.

- `region`, `grid`, `shape`, `cellset`: selection rectangles, masks,
  flips and rotations of tile grids, rectangle and ellipse fills, cell sets.
- `layer`, `document`, `flood`: tile layers, the layered document, region
  reads and writes, magic-wand regions and bucket fill.
- `history`: the editing session with undo, redo and edit batches.
- `editor`, `selection`, `undo`, `tools`, `transfer`, `gesture`, `install`:
  the editor state and every tile action a user can take — tools, the
  selection and its shared undo history, copy/cut/move/place/delete,
  in-place and floating transforms, and the single-finger gesture.
- `navigation`, `locale`, `settings`, `theme`, `css`, `text`, `platform`:
  screens, interface language, colour themes and their colour texts.

`app/` is a small desktop host: logging to files, the system CJK font,
theme import and export as JSON, and the float alpha of `rgba(..)`
colours. `tests/` exercise the library with the real outside crates.
