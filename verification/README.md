# roar

The integer core of a spatial audio renderer (loudspeaker layouts, downmixing, ambisonics
and binaural rendering), written in Verus: every function in `src/` carries a contract that
Verus proves.

- `src/` — the verified library: layouts and their channels, downmix modes and the plan of a
  downmix block, configuration checks and the C interface's integer types, audio buffer
  layouts, the element router's position timelines and sub-frame plans, gain timelines, the
  binaural renderer's element bookkeeping and processing groups, filter-set names, WAV
  parsing, the resampler's clock and the partitioned FFT filter's geometry.
- `tests/` — tests of the library on concrete values.
- `app/` — the floating-point sample path around the library (FFTs through `realfft`,
  ambisonic encoding, rotation and binaural decoding, limiters, gains and animations), which
  Verus does not check.
