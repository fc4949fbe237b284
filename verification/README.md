# expression_editor_ui

The decision logic and byte formats of the expression editor's UI,
verified with Verus.

- `src/` — the library. Each module holds the state and decisions of one
  surface, with contracts stated over views and spec functions:
  - `envelopes` — which vocal envelope is active and which overlays show;
  - `keys` — key names, chord labels, the half-typed sequence the
    which-key overlay walks to, the rows it lists, and the spring-loaded
    tool's tap-or-hold state;
  - `interaction` — drag-axis commitment, what each key press asks of
    the editor, which mouse context the pointer is in, and which drags
    outlive their release;
  - `scene_image` — the BMP and PNG `data:` URI a rasterized scene
    travels in, and the revisioned surface that serves it;
  - `theme`, `switcher`, `quantize_panel`, `demo`, `guitar`,
    `roll_widget`, `text` — palette lookups and inline styles, the track
    switcher, the quantize panel's grid, filter presets and stored slider defaults, the
    demo scenes, bend-flow variants, the frame meter's window, label
    alignment.
- `tests/` — tests of the library on concrete values.
- `app/` — the shell around it: the input processor, rasterization, the
  palette, the roll's drag state and release handling, and the
  floating-point geometry of the roll.
