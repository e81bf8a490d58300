# rugif

A GIF screen recorder for Linux: select a region, record it, trim the
recording and save it as a GIF (encoded with gifski).

## Layout

- `src/` — the library, written in Verus and verified. It holds the logic
  of the recorder with contracts:
  - `text`, `numbers` — decimal formatting, splitting, trimming and path
    joining; the decimal grammar that `str::parse` accepts, and the proof
    that formatted numbers read back unchanged.
  - `region` — `x,y,width,height` regions: the `--region` argument and the
    reply of the region-selection process, with round-trip proofs.
  - `frame` — captured frames; BGRA→RGBA conversion, cropping a region out
    of a full-screen buffer, the tray icon's ARGB, and the screenshot file
    handed to the selection process.
  - `capture`, `encode`, `trim`, `tray` — the start/stop protocol of the
    capture backends, the lead-in left out of an untrimmed recording, the
    trim selection and the frames it sends to the encoder, and the tray's
    recording state and labels.
  - `config`, `cli`, `errors` — settings and their defaults, file locations,
    the recording configuration built from the command line, error texts.
  - `recording` — the decisions of a recording run: when the capture loop
    stops (disconnection, stop file, maximum duration), what happens to an
    empty or a trimmable recording, and what follows a saved GIF.
- `tests/` — tests of the library on concrete values.
- `app/` — the program around the library: command line, files and
  processes, the X11 capture backend, the gifski encoder thread, the egui
  windows and the tray icon. The PipeWire backend for Wayland sessions
  (`app/capture/wayland.rs`) is kept as source but is not part of the build:
  it needs the `pipewire` and `ashpd` crates and the system PipeWire
  libraries, which this package does not depend on, and the package declares
  no `wayland` feature to switch it on. Without it a Wayland session gets a
  "Wayland support not compiled in" error.
