# niri_workspace

The decision logic of a scrollable-tiling workspace, verified with Verus.

- `src/workspace.rs`: a workspace's identity, name and original output, the
  windows held by its scrolling and floating spaces, and which of the two has
  focus. Every operation keeps the focus rules: an empty floating space never
  has focus, and a non-empty floating space has focus whenever the scrolling
  space is empty. Adding, removing, activating and moving windows between the
  spaces, and requests to fullscreen or maximize, say where the caller must
  put each tile. Each window's sizing state (fullscreen, maximized, and
  whether it returns to the floating space when it leaves them) is kept by
  the workspace.
- `src/grid.rs`: bookkeeping of the grid overview: the column where new
  windows go, the focused window, per-column tile focus after a relayout, and
  the order in which hit tests visit grid items.
- `src/grid_render.rs`: the order in which the grid overview draws its items,
  with a proof that every visible item is drawn exactly once; which entries
  get their render elements updated; opening and closing requests.
- `src/hotspot.rs`: finding the `Hotspot: x, y` text of an SVG cursor.
- `src/sizing.rs`: the size requested from a new window and its default
  width and height.
- `src/ids.rs`, `src/floating_active.rs`, `src/pixels.rs`: workspace
  identifiers, the focus state, and the byte order of cursor pixels.
- `src/laws.rs`: properties that span several operations.
- `app/`: floating-point geometry and SVG cursor rendering with resvg.
