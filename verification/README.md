# laravox

Laravox is a small game engine: a Lua program (the `main` folder, or a `main` ZIP archive)
runs in a raylib window and reaches the engine through the `laravox` global table.

The decisions and text handling of the engine are a Verus library with proved contracts:

- `src/engine_macro.rs`: the Lua annotation text of each documented function, method, class
  and module of the scripting API; `src/engine/meta.rs` gathers annotation blocks into
  `meta.lua`.
- `src/engine/`: what the engine's API modules decide: archive paths and extensions, path
  kinds and system codes, font code points, the first pressed key of a list, the main loop's
  steps and the archive entry of a required module, network events and status codes, sound
  aliases, the draw order of texture batches, window exit keys and dialog levels.
- `src/app.rs`, `src/system.rs`, `src/script.rs`, `src/module/`: the button state machines of
  the windowed front ends, the window requests that scripts queue, pad state, the script
  host and the runner's main-loop steps, the pixel walk that draws lines, and the layout of
  glyph atlases.
- `src/text.rs`: characters, lines and trimming of strings, as the standard library defines
  them.

`app/` is the engine program itself: the Lua state, raylib, audio, files, sockets and
dialogs, calling the library for each decision. `app/annotation.rs` reads the documenting
attributes of the API sources and writes the annotation files.

The tests under `tests/` run the library on concrete inputs.
