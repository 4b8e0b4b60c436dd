# browser_wpe

The logic of the bundled WPE WebKit runtime for WaterUI on Linux, verified with
Verus.

## Frames

The engine hands each rendered frame over as a platform buffer, and WPE Platform
picks which kind from what the host can do:

- **dma-buf** on a host with a DRM render node, imported into a texture without a
  copy.
- **shared memory** on a host without one, uploaded into the same texture from its
  mapping.

Both are leased: the buffer belongs to WPE's own pool and is returned once it has
been read. However a frame ends, the bridge is told that it was presented and then
that it goes back, each exactly once.

## Layout

- `src/` is the library. It decides and checks; it makes no call on the bridge, the
  file system or the GPU. What it takes on trust from other crates and from `std`
  is in `src/outside.rs`.
- `app/` is the host: it loads the bridge, looks at the file system, drives the GPU
  and the UI executor, and carries out what the library decides.
- `tests/` runs the library.
