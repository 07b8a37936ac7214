# Game Boy emulator core, verified with Verus

`src/` is the verified library:

- `registers.rs`: the 8-bit registers, 16-bit pairs and the four flags of F.
- `bus.rs`: the memory map (cartridge ROM, work RAM, high RAM, interrupt
  enable, fixed values elsewhere) and the serial port output of a write.
- `instr.rs`: the instructions the processor implements and the decoding of
  the main and 0xCB opcode tables.
- `cpu.rs`: the processor state as a mathematical value (`CpuView`), the
  effect of each instruction as a spec function, and `CPU::step` /
  `CPU::try_step`, proved to carry out exactly that effect.
- `mmu.rs`: a flat 64 KiB memory behind a `MemoryBus` trait and `fill`.
- `cartridge.rs`: a cursor over ROM bytes and the cartridge header.
- `ppu.rs`: the frame of colour values and an RGBA frame buffer.

`app/` loads a ROM file, runs the processor and prints what it sends over the
serial port; it also holds a two-thread frame pipeline demo.
