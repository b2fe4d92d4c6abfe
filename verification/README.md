# lib — a chorded keyboard worn on the hand

Five keys (thumb `T`, fingers `I M R P`) and a gyroscope: the rotation of the
hand, matched against six calibrated rotations, selects what each key types.

- `src/binds.rs` — the key map: bindings and the table they are appended to.
- `src/bindings.rs` — the default layout, and the Dvorak and shift mappings.
- `src/state.rs` — the keyboard's state machine: start of frame (`read`),
  phase step (`exec`: typing, calibrating), end of frame (`post`), start-up (`init`).
- `src/peak.rs` — a simpler firmware that calibrates each rotation as the
  strongest gyroscope reading.
- `src/text.rs` — the serial report line: copying text, writing decimal numbers.
- `src/sensor.rs` — joining the motion sensor's register halves into words.
- `src/laws.rs` — properties across functions, proved.
- `app/` — the board: pins, I2C, USB, EEPROM, and the floating-point vector
  work that decides the motion flags and distances handed to the library.
