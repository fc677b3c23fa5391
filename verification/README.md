# rustmix_x4

Verified logic of the Rustmix X4 e-reader firmware and of its host-side
prepared-cache builder, written in Verus.

- `src/r10_*`: the COLMI R10 ring remote: the 16-byte packet protocol, the
  Reader remote policy and debounce, the BLE transport session and GATT
  handles, the on-device probe, the device-task startup plan, the ProbeOnly
  bridge and serial records, the ESP32-C3 backend task, operation queue and
  runner, the ReaderRemote guard and the settings screen.
- `src/prepared_cache.rs`: the Reader's side of prepared book caches: META,
  index and page parsing, VFNT font checks and glyph lookup, page-local file
  names, and the state that opens a cache and loads pages.
- `src/prepared_gen.rs`, `src/prepared_output.rs`: the builder's side: script
  runs, page layout under the Reader's per-page budget, VRUN pages, VFNT
  fonts, META.TXT and the cache's file names.
- `src/font_roundtrip.rs`: what the builder writes, the Reader reads.
- `src/font_checks.rs`: the builder's own checks accept the fonts it writes,
  with exactly their glyph ids.
- `app/`: the builder program and the firmware glue that needs I/O, the
  shaping and rasterizing crates (which work in floating point), serial
  output or the input queue.
