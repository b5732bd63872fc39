# gba

Building blocks for programs that run on the Game Boy Advance, with their
behaviour stated in Verus contracts and proved.

* `src/` is the verified library: the register value types (bit fields read
  and written through getters and `with_*` builders), the fixed-point number
  types `Fx` and `Fixed`, volatile address arithmetic (`VolAddress`,
  `VolAddressIter`, `VolAddressBlock`), the mGBA log buffer and debug output
  logic, the NO$GBA signature check, the debug-interface state, the serial
  port status decisions, and a count-leading-zeros routine.
  The calls into the `bitfrob` crate stand behind the trusted wrappers of
  `src/bitfrob_calls.rs`.
* `app/` is the hardware side: it reads and writes the registers through
  `voladdress`, performs the actions the library decides on, implements the
  `embedded-hal` serial traits, and holds what only exists on the console
  (BIOS calls, the interrupt handler slot, `GbaCell`).
* `tests/` runs the library on concrete values.
