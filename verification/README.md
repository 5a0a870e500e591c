# audio_router

Routes one audio source (an input device, or loopback capture of an output
device) to several output devices at once, with per-output channel mapping,
resampling, limiting, drift compensation, hot-plug handling and smooth fades.
It runs with a graphical interface (the default) or from the command line.

## Layout

- `src/` — the library, verified with Verus. It holds every decision the
  router makes, each with a contract:
  - `cli`, `config`, `source`, `resample`: command-line merging, defaults,
    source type and resampler names;
  - `device`, `sorted`, `text`: device descriptions from configuration
    ranges, name matching and output selection;
  - `channel_map`: where each output sample comes from (ITU-R BS.775 gains);
  - `pipeline`: output slots, the fan-out of input blocks, fades and the
    plan of each output block;
  - `engine`: per-output setup (rate choice, ring size, fade length) and the
    latency check;
  - `recovery`: the input-loss recovery machine (backoff, fallback);
  - `hotplug`: device list changes;
  - `gui`: the interface's state — panels, log, and what every engine event
    and every click changes;
  - `clock`, `flag`: the few calls into `std` that the library trusts.
- `app/` — the program around the library: argument parsing, files, logging,
  audio streams (cpal), floating-point processing (limiter, drift
  compensator, resampler through rubato, fade gains), threads and the window
  (egui/eframe).
- `tests/` — tests of the library on concrete values.
