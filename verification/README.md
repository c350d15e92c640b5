# sen5x

A driver for the Sensirion SEN5x environmental sensors (SEN50, SEN54, SEN55)
whose protocol core is verified with Verus.

- `src/` — the verified library: the Sensirion CRC-8 (`crc`), the wire format
  of CRC-protected words and its round-trip and corruption-detection laws
  (`wire`), the bus transaction of every command (`driver`, `requests`), the
  decoding of every response block and of each command's whole response
  (`measurements`, `responses`, `sensor_string`), the
  "no data" sentinels (`conversion`), and the status mapping of the facades
  over the reference C driver (`c_reference`, `legacy_reference`).
- `app/` — the async commands over `embedded-hal-async`, which perform the
  planned transactions, the floating-point unit conversions, and the C
  facades' foreign calls.
- `tests/` — tests of the library on concrete wire payloads.
