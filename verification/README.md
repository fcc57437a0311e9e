# small_world

A geodesy toolkit that keeps altitude frames (`AGL`, `MSL(model)`, `HAE`) explicit, with its
integer and decision logic written in Verus and proved against its contracts.

## Layout

- `src/` — the verified library:
  - `geoid.rs`: EGM96 / EGM2008 grid layouts, size and record-marker validation, decoding of
    whole datasets and single cells, cell addressing (row clamping, longitude wrapping,
    bicubic stencils), error messages.
  - `terrain.rs`: SRTM tile names, tile decoding, the void policies and the ring search for a
    valid neighbour, the walk across shared tile edges, the bounded least-recently-used tile
    cache and the dataset state around it.
  - `altitude.rs`: vertical frames, datum checks and the conversion plans between frames.
  - `ffi.rs`: the plain-value side of the C interface (status codes, option records).
  - `codec.rs`, `text.rs`, `height.rs`: byte decoding, decimal rendering, sampling modes.
- `app/` — what stays ordinary Rust: file and lock handling, floating-point interpolation and
  WGS84 transforms, the altitude converter's arithmetic and the `extern "C"` functions.
- `tests/` — tests of the library.

Verify with `verus` on `src/lib.rs` (the `byteorder` crate is the one outside dependency).
