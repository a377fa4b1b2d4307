# venus

A Nintendo Entertainment System emulator whose core is written in Verus: each function
states what it does in `requires`/`ensures` clauses, and Verus proves the code against them.

## Layout

- `src/` — the verified library.
  - `cpu/` — the Ricoh 2A03 (a 6502 without decimal mode): the opcode table with all
    undocumented opcodes, the status register, and the interpreter. The register effect of
    every operation is a spec function (`spec_effect`). One step of the CPU is proved to
    take a pending NMI, or else to fetch the opcode and operand bytes at PC from the bus and
    run the decoded instruction on the operand read at its effective address (with the store
    of a store and the write-back of a read-modify-write), and then to clock the bus by the
    cycles taken. What a bus read or write means is each bus's own relation (`reads`,
    `writes`); the console's bus states it for RAM, the PPU and APU registers, OAM DMA and
    the cartridge.
  - `ppu/` — the picture processor: registers, the scroll/address latch, sprites, the
    state machine that runs a frame, nametable and palette mirroring, and the catch-up
    scheme that lets the PPU lag behind the CPU without the CPU noticing.
  - `apu/` — the sound channels' counters, envelopes, sweep units, sequencers and the
    delta modulation channel.
  - `cartridge/` — iNES images, their headers, and the NROM and MMC1 boards (a CNROM board
    exists too, though no header selects it yet).
  - `bus.rs` — the CPU's address space: RAM mirroring, PPU and APU registers, OAM DMA and
    the cartridge.
  - `ricoh.rs`, `instructions.rs`, `mapper.rs`, `common.rs` — the first CPU core, which runs
    one bus cycle per clock, with its opcode table, boards and bus.
  - `lib.rs` — the console (`VNES`): reset, single steps, stepping until an address, and the
    tasks run around each step.
- `tests/` — the test suite, run against the compiled library.
- `app/` — the program: it reads a ROM file, runs the console headless on a CPU thread and
  logs through `tracing`; it also holds the floating-point audio filters.

Run `main ROM [PC]`: with a PC (in hex) the CPU starts there, as the nestest log expects, and
every step is traced.
