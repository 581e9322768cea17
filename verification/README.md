# strixctl

Power management for the ASUS ProArt PX13 (AMD Strix Halo): a GUI, a session
D-Bus daemon (`strixctld`) and a privileged CPU helper (`strixctl-cpuctl`).

## Layout

- `src/` — the verified library (Verus). Every decision the three programs
  take is here, with its contract:
  - `state` — platform profiles, PPT limits, core presets.
  - `panel` — the GUI controller: each user action or finished job is a step
    from the panel's state to the next state and an effect.
  - `gui` — input-field validation and the texts the windows show.
  - `daemon` — D-Bus request checks, the order in which a saved profile is
    applied, error collection, the drift guards and suspend handling.
  - `cpuctl`, `cpulist` — the helper's sysfs writes and kernel CPU lists.
  - `tools` — asusctl / ryzenadj command lines and the parsing of their
    output.
  - `windows` — bcdedit / atrofac / powercfg command lines, the batched
    apply script and how its exit code is reported.
  - `text` — the string model (trimming, splitting, decimal parsing and
    printing) the rest is stated over.
- `app/` — the programs around the library: the iced GUI, the zbus daemon,
  the helper's `main`, file and sysfs I/O, and the floating-point parts (fan
  curve points, temperatures, power readings).
- `tests/` — tests of the library.
