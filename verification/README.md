# chalkak

The logic of a screenshot tool for Hyprland, written in Verus: every function in `src/`
carries a contract that Verus proves.

- `capture/` — choosing the focused monitor and the selectable windows from the compositor's
  status, labelling windows for the region picker, reading the picked region (`x,y wxh`),
  the full, region and window capture flows run against a `CaptureBackend` (each flow's
  result is stated in terms of what the backend answered to each call), and how a finished
  command's exit and output are read.
- `editor/` — the canvas viewport (zoom ladder, pan), exclusive input modes, the annotation
  tools (blur, pen, arrow, rectangle, crop, text) with their placement, moves, resizes and
  text editing, undo/redo history, and what the canvas draws inline (composing text, blur
  regions). `editor/hit_test.rs` and `editor/interaction.rs` decide what lies under the
  pointer and how corner handles resize boxes; `editor/gesture.rs` is what a canvas drag
  does as it begins, moves and ends; `editor/commands.rs` holds tool switching and the
  editor's shortcut commands; `editor/output.rs` decides what a save or copy of the edited
  image needs, which part of the image is written, and what the user is told.
- `input/` — keyboard shortcut resolution by context.
- `theme.rs`, `editor_theme.rs` — theme modes, palettes, and the parsing of color and preset
  overrides from the theme configuration.
- `ocr.rs`, `ocr_region.rs` — recognition languages, how the configured or system language
  is resolved, how recognized lines are joined top to bottom, and how a screen region is cut
  to the image and packed as RGB bytes.
- `runtime/`, `state/`, `session.rs`, `preview.rs` — window geometry memory and placement on
  monitors, which preview windows to close, make or refresh, which toast is current, the
  application state machine, and the shell's status and reporting decisions.
- `launchpad.rs`, `close_flow.rs` — opening and closing the preview and the editor, and the
  editor's close request with its unsaved-changes dialog, as state transitions and status.
- `actions.rs`, `storage.rs`, `clipboard.rs` — carrying out save, copy and delete requests
  through a `CaptureStorage` and a `ClipboardBackend`, the errors they report, and the
  payloads a copied file is offered as.
- `numbers.rs`, `text.rs`, `chars.rs`, `arith.rs`, `geometry.rs` — decimal text, UTF-8 and
  whitespace helpers, clamping, and the shared geometry types.

`app/` is the command-line front end: it runs `hyprctl`, `slurp` and `grim`, reads the
compositor's JSON with serde, measures images with the image crate, runs the OCR engine and
sends desktop notifications.
