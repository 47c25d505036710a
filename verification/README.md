# autovocoder-dsp

An auto-vocoder: it detects the pitch of a voice, snaps it to a musical
scale, synthesizes a carrier (a single note, a chord, or a fixed note) and
drives a 16-band channel vocoder with it.

## Layout

- `src/` — the verified library (Verus). It holds everything the processor
  decides with integers:
  - `scale` — scales as pitch-class masks, and the nearest-note search that
    snaps a detected MIDI note into a scale;
  - `autovocoder` — chord voicings, carrier modes and the oscillator-bank
    layout they ask for;
  - `pitch` — pitch-algorithm selection, detector window sizes, the ring
    cursor that paces estimates, and the spectral search range;
  - `crusher`, `chorus` — sample-and-hold counting and delay-line positions;
  - `controls` — which plugin control ports changed from one run to the next;
  - `cli` — the command-line selectors and the settings they stand for;
  - `counting` — powers of two and wrap-around counters shared by the above.
- `app/` — the program around it: floating-point audio processing (filters,
  oscillators, pitch estimators, effects, the top-level processor), the
  command line with WAV rendering and live audio, the LV2 plugin entry
  points and the WebAssembly bindings.
- `tests/` — tests of the library.
