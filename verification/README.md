# zundamon_vrc

A text-to-speech virtual microphone for VRChat on Linux: text is spoken by VOICEVOX
(or a VOICEVOX-compatible engine) into a PulseAudio null sink whose monitor source
serves as the microphone, and can be shown in VRChat's chat box over OSC.

- `src/` is the verified library: settings (defaults, migration between the flat and
  per-engine forms, sanitizing), validation, the engine registry and HTTP request
  bodies, the virtual device's `pactl` protocol, OSC packets, and the decisions behind
  the screens. Verus proves each function's contract, except for the few small
  wrappers that make a call into an outside crate or std (URL parsing, shell-word
  splitting, path parents, the OSC encoder, the settings folder): their contracts
  state what that code documents and are taken on trust.
- `app/` is the program around it: reading and writing `config.toml`, HTTP, running
  `pactl`/`paplay`/rodio, UDP, and the line-by-line loop on standard input.
  It has no graphical interface: lines typed on standard input are spoken with the
  settings as saved. Apart from taking the typed message (`ui::input::take_message`),
  the screen decisions in `src/ui/` (presets, settings, input, media) are exercised
  only by `tests/`, not by this program.
- `tests/` exercises the library on concrete values.
