# expad - Expression Adapter

Firmware for a four-jack USB MIDI adapter for expression and sustain pedals on a Raspberry Pi
Pico 2 W. It works out what is plugged into each jack, follows every pedal's position, sends it
as a MIDI control change and serves a web interface over WiFi.

## Layout

- `src/` is the `expad` library, written in Verus and verified:
  - `adc`: the AD7718's communication byte and register layouts (mode, control, filter, ID,
    status, data) as bit fields, with laws on writing and reading fields back.
  - `hal`: the chain driver's register values and wire frames, the pull switch bytes, LED
    colors and brightness, USB string descriptors, bus event bursts and connection state,
    and the WiFi passphrase rule.
  - `board`: which chip and input every jack contact is wired to, proved consistent.
  - `topology`: the integer half of the jack monitor - the order of a solve's pairs, which
    contacts every reading drives and reads, the reading schedules of a tracked
    potentiometer and a two-terminal element, the mode every event moves a jack to, and
    which due jack each ADC reads next.
  - `controller`, `rainbow`, `quadbuf`, `web`: MIDI control change packets, the LED test
    pattern, the earlier board's buffer bytes, and values shared with the browser.
- `app/` is the firmware around the library: the embassy drivers for SPI, PIO, USB and WiFi,
  the voltage and resistance arithmetic of the solver and monitor (floating point), the web
  server, and the board's test programs.
- `tests/` runs the library on concrete values.
