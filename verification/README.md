# rustjay_404

The core of RustJay 404, a video sampler in the style of the Roland SP-404,
as a Verus-verified library.

- `src/` — the verified library: simple-player playback and decoder
  restart decisions, pad triggering (Gate / Latch / One-Shot) and
  banks, sample in/out ranges, MIDI decoding, mapping and learn, OSC
  addresses, keyboard shortcuts, the step sequencer (tracks, gates, patterns,
  tick clock, tap tempo), audio routing tables, mixer and preset vocabulary,
  preset bank bookkeeping, and V4L2 device classification. Functions state
  their behaviour in `requires`/`ensures`, except where there is nothing
  Verus can hold: the lock-free audio outputs (std atomics, whose contents
  Verus does not model) and the user-implemented `Random` draw. The laws
  that tie functions together are public proof functions (`lemma_*`).
- `tests/` — executable tests of the library.
- `app/` — a small command-line front end: file, device and network I/O,
  JSON/TOML encoding, an ffmpeg-fed simple player without a window, and the
  floating-point signal code (spectrum bands, LFOs, route levels, playback
  positions).

The GUI (imgui/winit), the GPU video engine and mixer, audio capture and
MIDI device input are not part of this crate.
