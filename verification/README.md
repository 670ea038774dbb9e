# handoffgg

HandoffGG switches the default audio devices when a SteelSeries wireless headset is
really connected or disconnected (the USB dongle stays present while the headset is
off), and applies the headset's ChatMix wheel to per-application volumes.

- `src/` is the verified library (Verus): the HID report decoder, the presence
  snapshots built from it, the monitor's per-snapshot decisions, the priority rules,
  the ChatMix routing heuristics, the audio-graph identity rules shared by the native
  backends, the order the device and session lists are shown in, and the string helpers they rest on. Every public function but the
  clock reading `now_ms` (whose value depends on the machine's clock) has a
  contract; the properties that span functions are proof functions named `law_*`.
- `tests/` runs the library on concrete values, including captured HID frames.
- `app/` is the desktop shell around it: the Tauri app, the HID and PipeWire / Windows
  Core Audio I/O, the config file, and the `f32` volume scaling for ChatMix.
