# retrospector

Inspection of retro game ROM and disc images: header parsing, checksum
checks, overdump detection, CUE sheet enrichment and XML DAT catalogues for
some thirty cartridge and optical-disc systems.

The library in `src/` is written in Verus. Every function there carries a
contract over a mathematical model (sequences of bytes and characters, and
spec functions that state what each header field, checksum and report line
is), and Verus proves the code against it.

Layout:

- `src/systems/` — one module per system, each with a parser whose contract
  names the error it returns and the fields it reads, and a `describe`
  method that states the report text; `registry.rs` holds the detection
  order and the lookup of system names.
- `src/output/` — digests, CUE sheet track hashing and writing, DAT
  catalogues.
- `src/text.rs`, `src/bytes.rs`, `src/bits.rs`, `src/report.rs` — shared
  text, byte, bit and number-format helpers with their specifications.
- `src/ext.rs` — the calls into the hashing, CRC, text-encoding and
  normalisation crates, each with the contract it is trusted to meet.
- `app/main.rs` — the command line: argument parsing, file reading, CUE
  parsing with `rcue`, size formatting with `byte-unit`, printing.
- `tests/` — behaviour tests of the library.

Laws of the library are public proof functions named `law_*`.
