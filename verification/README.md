# macropad

Firmware logic for a programmable two-button USB HID controller (RP2040,
SSD1306 OLED), verified with Verus.

- `src/` is the verified library: profiles and their validation
  (`domain::profile`), the automaton that walks them (`domain::automaton`,
  with its laws in `domain::automaton_laws`), and the decisions of every
  actor: `controller` (start-up checks, dispatch, fatal screens, bootloader
  hand-over; laws in `controller_laws`), `hid`, `display`, `timer`,
  `buttons`. `profiles` holds the configured profiles; `profile` holds the
  profile model with timed transitions.
- `app/` is the firmware around it: embassy tasks, USB and I2C set-up, and
  drawing. The actors carry out what the library decides, including every
  timing (debounce, bootloader hold, release deadline, USB grace and write
  timeout); what is left in them is waiting, I/O and drawing.
- `tests/` exercises the library on concrete values.
