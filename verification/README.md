# telemax

Remote control for Niri desktops from a phone: pairing, trackpad and
keyboard input, media-player control and a browser media bridge.

- `src/` is the verified library. Its modules hold the decisions of the
  program with their contracts and laws: `auth` (pairing protocol and
  session tokens), `keymap` and `input` (keys, text and mouse events),
  `media` (MPRIS players and metadata), `ws` (when media state is pushed),
  `host` (the browser media bridge and its message frames), `niri`
  (allowed compositor actions), `audio` (spectrum band layout and window
  schedule), `error` and `settings`, with `text` for character-level
  helpers.
- `app/` is the program around it: the HTTP server, the uinput devices,
  D-Bus, PulseAudio and the native-messaging host (`telemax host`).
- `tests/` runs the library on concrete values.
