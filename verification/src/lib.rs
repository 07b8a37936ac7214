pub mod registers;
pub mod bus;
pub mod instr;
pub mod cpu;
pub mod mmu;
pub mod cartridge;
pub mod ppu;
pub mod laws;
