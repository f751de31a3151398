# ropk

Verified core of a firmware that turns an nRF52840 board into a receiver
("puck") for Steam Controllers.

- `src/` — the library, verified with Verus:
  - `radio/`: bit reversal of address bytes, the Steam Controller radio
    settings, the BASE0/PREFIX0 address registers computed from them, and
    decoding of a received packet out of the receive buffer.
  - `usb/`: the USB identifiers, the feature-report command codes and the
    per-slot HID request handler (bond storage and the responses to the
    host's feature requests), with its state model and laws.
  - `xtask.rs`: the command line of the build helper and the programs it
    runs to build a UF2 image.
- `tests/` — tests run against the compiled library.
- `app/` — the firmware entry point, the radio register driver, the glue to
  the USB stack and the host-side build helper.
