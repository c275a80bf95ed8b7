# Toon Dash

An endless three-lane runner for TV remotes. The library under `src/` holds
the game's rules, each with a contract proved by Verus:

- `game::state` – screens, the shutdown handshake, settings sliders, the
  character carousel, menu lists and lifetime statistics.
- `game::menus` – what the main, pause and game-over menus do with each
  frame's presses, and which game action they ask for.
- `game::types`, `game::player`, `game::obstacles` – lanes, the player's
  move state and which obstacle can hit the player.
- `game::persistence` – the statistics save format, with the proof that a
  save reads back to what was written.
- `input`, `tv_input_manager` – edge detection on remote buttons and the
  per-frame press latch.
- `models` – index buffers of meshes built from several glTF primitives.
- `rendering` – the layers each screen draws, menu button labels and focus,
  the lifetime and options panel texts, HUD labels and where scenery stands
  beside the road.

`app/` is the program around it: the macroquad frame loop, audio, asset
loading, drawing, and the floating-point world (positions, jumps, the
camera, random track generation).
