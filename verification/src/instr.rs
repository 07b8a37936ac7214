use vstd::prelude::*;
use crate::registers::{Reg, Pair};

verus! {

/// The condition tested by a conditional jump, call or return.
#[derive(Clone, Copy, Debug, PartialEq, Eq, Structural)]
pub enum Cond {
    NotZero,
    Zero,
    NotCarry,
    Carry,
}

/// The source of the second operand of an 8-bit arithmetic or logic instruction.
#[derive(Clone, Copy, Debug, PartialEq, Eq, Structural)]
pub enum Operand {
    /// An 8-bit register.
    Reg(Reg),
    /// The byte at the address held in HL.
    AtHl,
    /// The byte that follows the opcode.
    Imm,
}

/// An instruction of the main opcode table, as this processor carries it out.
/// "imm8" is the byte that follows the opcode and "imm16" the little-endian
/// word that follows it.
#[derive(Clone, Copy, Debug, PartialEq, Eq, Structural)]
pub enum Instr {
    Nop,
    Halt,
    /// pair := imm16
    LoadPairImm(Pair),
    /// SP := imm16
    LoadSpImm,
    /// BC := A (B is cleared, C takes A)
    LoadBcWithA,
    /// pair := pair + 1 (wrapping), flags unchanged
    IncPair(Pair),
    /// pair := pair - 1 (wrapping), flags unchanged
    DecPair(Pair),
    /// SP := SP + 1 (wrapping)
    IncSp,
    /// SP := SP - 1 (wrapping)
    DecSp,
    /// r := r + 1; Z, N cleared, H when the low nibble was 0xF
    Inc(Reg),
    /// r := r - 1; Z, N set, H when the low nibble was 0xF
    Dec(Reg),
    /// r := imm8
    LoadImm(Reg),
    /// r := the byte after the opcode, which is then executed as the next opcode
    LoadImmNoAdvance(Reg),
    /// rotate A left; C takes bit 7
    Rlca,
    /// rotate A right; C takes bit 0
    Rrca,
    /// A := A << 1 with bit 0 cleared and bit 7 set from the old carry; C takes old bit 0
    Rla,
    /// A := A >> 1 with bit 7 from the old carry; C takes old bit 0
    Rra,
    /// skips the byte after the opcode
    Stop,
    /// (DE) := A
    StoreAAtDe,
    /// relative jump by the signed imm8
    Jr,
    /// relative jump by the signed imm8 when the condition holds
    JrIf(Cond),
    /// (HL) := A; HL := HL + 1
    StoreAHlInc,
    /// (HL) := A; HL := HL - 1
    StoreAHlDec,
    /// A := (HL); HL := HL + 1
    LoadAHlInc,
    /// A := (HL); HL := HL - 1
    LoadAHlDec,
    /// A := !A; N, H set
    Cpl,
    /// skips a byte and writes the byte at (HL) back to (HL)
    RewriteAtHl,
    /// C set; N, H cleared
    Scf,
    /// C inverted; N, H cleared
    Ccf,
    /// dst := src
    Load(Reg, Reg),
    /// r := (HL)
    LoadFromHl(Reg),
    /// (HL) := r
    StoreAtHl(Reg),
    /// A := A + operand
    Add(Operand),
    /// A := A - operand
    Sub(Operand),
    /// A := A & operand
    And(Operand),
    /// flags from r & r (r unchanged)
    AndSelf(Reg),
    /// A := A ^ operand
    Xor(Operand),
    /// A := 0, F := Z only
    ClearA,
    /// A := A ^ imm8; Z set when imm8 is zero, other flags unchanged
    XorImm,
    /// A := A | operand
    Or(Operand),
    /// flags from r | r (r unchanged)
    OrSelf(Reg),
    /// flags from A - operand (A unchanged)
    Cp(Operand),
    /// when the condition holds, removes a word from the stack without jumping
    DropIf(Cond),
    /// pair := word popped from the stack
    Pop(Pair),
    /// AF := popped word with the low nibble cleared, then flags rebuilt from F
    PopAf,
    /// pushes the pair
    Push(Pair),
    /// pushes A and the high nibble of F
    PushAf,
    /// PC := imm16
    Jp,
    /// PC := imm16 when the condition holds
    JpIf(Cond),
    /// pushes the return address and jumps to imm16
    Call,
    /// call when the condition holds
    CallIf(Cond),
    /// PC := word popped from the stack
    Ret,
    /// the next byte selects an instruction of the 0xCB table
    Prefix,
    /// (0xFF00 + imm8) := A
    StoreHigh,
    /// A := (0xFF00 + imm8)
    LoadHigh,
    /// (imm16) := A, then one more byte is skipped
    StoreAAbs,
    /// interrupts disabled
    Di,
    /// interrupts enabled
    Ei,
    /// pushes PC and jumps to 0x0038
    Rst38,
}

/// An instruction of the 0xCB-prefixed table.
#[derive(Clone, Copy, Debug, PartialEq, Eq, Structural)]
pub enum CbInstr {
    /// r := r >> 1 with bit 7 from the old carry; C takes old bit 0
    Rr(Reg),
    /// flags of a rotate right through carry of (HL); memory is not written
    RrAtHl,
    /// r := r with its nibbles swapped
    Swap(Reg),
    /// (HL) := (HL) with its nibbles swapped
    SwapAtHl,
    /// r := r >> 1; C takes old bit 0
    Srl(Reg),
    /// (HL) := (HL) >> 1; C takes old bit 0
    SrlAtHl,
    /// Z set when bit 7 of H is clear; N cleared, H set
    Bit7H,
}

/// The instruction that an opcode of the main table stands for; `None` for
/// the opcodes this processor does not implement.
pub open spec fn decode_spec(opcode: u8) -> Option<Instr> {
    match opcode {
        0x00 => Some(Instr::Nop),
        0x01 => Some(Instr::LoadPairImm(Pair::BC)),
        0x02 => Some(Instr::LoadBcWithA),
        0x03 => Some(Instr::IncPair(Pair::BC)),
        0x04 => Some(Instr::Inc(Reg::B)),
        0x05 => Some(Instr::Dec(Reg::B)),
        0x06 => Some(Instr::LoadImmNoAdvance(Reg::B)),
        0x07 => Some(Instr::Rlca),
        0x0B => Some(Instr::DecPair(Pair::BC)),
        0x0C => Some(Instr::Inc(Reg::C)),
        0x0D => Some(Instr::Dec(Reg::C)),
        0x0E => Some(Instr::LoadImm(Reg::C)),
        0x0F => Some(Instr::Rrca),
        0x10 => Some(Instr::Stop),
        0x11 => Some(Instr::LoadPairImm(Pair::DE)),
        0x12 => Some(Instr::StoreAAtDe),
        0x13 => Some(Instr::IncPair(Pair::DE)),
        0x14 => Some(Instr::Inc(Reg::D)),
        0x17 => Some(Instr::Rla),
        0x18 => Some(Instr::Jr),
        0x1B => Some(Instr::DecPair(Pair::DE)),
        0x1C => Some(Instr::Inc(Reg::E)),
        0x1F => Some(Instr::Rra),
        0x20 => Some(Instr::JrIf(Cond::NotZero)),
        0x21 => Some(Instr::LoadPairImm(Pair::HL)),
        0x22 => Some(Instr::StoreAHlInc),
        0x23 => Some(Instr::IncPair(Pair::HL)),
        0x25 => Some(Instr::Dec(Reg::H)),
        0x26 => Some(Instr::LoadImm(Reg::H)),
        0x2A => Some(Instr::LoadAHlInc),
        0x2B => Some(Instr::DecPair(Pair::HL)),
        0x2C => Some(Instr::Inc(Reg::L)),
        0x2D => Some(Instr::Dec(Reg::L)),
        0x2F => Some(Instr::Cpl),
        0x30 => Some(Instr::JrIf(Cond::NotCarry)),
        0x31 => Some(Instr::LoadSpImm),
        0x32 => Some(Instr::StoreAHlDec),
        0x33 => Some(Instr::IncSp),
        0x36 => Some(Instr::RewriteAtHl),
        0x37 => Some(Instr::Scf),
        0x38 => Some(Instr::JrIf(Cond::Carry)),
        0x3A => Some(Instr::LoadAHlDec),
        0x3B => Some(Instr::DecSp),
        0x3C => Some(Instr::Inc(Reg::A)),
        0x3D => Some(Instr::Dec(Reg::A)),
        0x3E => Some(Instr::LoadImm(Reg::A)),
        0x3F => Some(Instr::Ccf),
        0x40 => Some(Instr::Load(Reg::B, Reg::B)),
        0x41 => Some(Instr::Load(Reg::B, Reg::C)),
        0x42 => Some(Instr::Load(Reg::B, Reg::D)),
        0x43 => Some(Instr::Load(Reg::B, Reg::E)),
        0x44 => Some(Instr::Load(Reg::B, Reg::H)),
        0x45 => Some(Instr::Load(Reg::B, Reg::L)),
        0x46 => Some(Instr::LoadFromHl(Reg::B)),
        0x47 => Some(Instr::Load(Reg::B, Reg::A)),
        0x48 => Some(Instr::Load(Reg::C, Reg::B)),
        0x49 => Some(Instr::Load(Reg::C, Reg::C)),
        0x4A => Some(Instr::Load(Reg::C, Reg::D)),
        0x4B => Some(Instr::Load(Reg::C, Reg::E)),
        0x4C => Some(Instr::Load(Reg::C, Reg::H)),
        0x4D => Some(Instr::Load(Reg::C, Reg::L)),
        0x4E => Some(Instr::LoadFromHl(Reg::C)),
        0x4F => Some(Instr::Load(Reg::C, Reg::A)),
        0x50 => Some(Instr::Load(Reg::D, Reg::B)),
        0x51 => Some(Instr::Load(Reg::D, Reg::C)),
        0x52 => Some(Instr::Load(Reg::D, Reg::D)),
        0x53 => Some(Instr::Load(Reg::D, Reg::E)),
        0x54 => Some(Instr::Load(Reg::D, Reg::H)),
        0x55 => Some(Instr::Load(Reg::D, Reg::L)),
        0x56 => Some(Instr::LoadFromHl(Reg::D)),
        0x57 => Some(Instr::Load(Reg::D, Reg::A)),
        0x58 => Some(Instr::Load(Reg::E, Reg::B)),
        0x59 => Some(Instr::Load(Reg::E, Reg::C)),
        0x5A => Some(Instr::Load(Reg::E, Reg::D)),
        0x5B => Some(Instr::Load(Reg::E, Reg::E)),
        0x5C => Some(Instr::Load(Reg::E, Reg::H)),
        0x5D => Some(Instr::Load(Reg::E, Reg::L)),
        0x5E => Some(Instr::LoadFromHl(Reg::E)),
        0x5F => Some(Instr::Load(Reg::E, Reg::A)),
        0x60 => Some(Instr::Load(Reg::H, Reg::B)),
        0x61 => Some(Instr::Load(Reg::H, Reg::C)),
        0x62 => Some(Instr::Load(Reg::H, Reg::D)),
        0x63 => Some(Instr::Load(Reg::H, Reg::E)),
        0x64 => Some(Instr::Load(Reg::H, Reg::H)),
        0x65 => Some(Instr::Load(Reg::H, Reg::L)),
        0x66 => Some(Instr::LoadFromHl(Reg::H)),
        0x67 => Some(Instr::Load(Reg::H, Reg::A)),
        0x68 => Some(Instr::Load(Reg::L, Reg::B)),
        0x69 => Some(Instr::Load(Reg::L, Reg::C)),
        0x6A => Some(Instr::Load(Reg::L, Reg::D)),
        0x6B => Some(Instr::Load(Reg::L, Reg::E)),
        0x6C => Some(Instr::Load(Reg::L, Reg::H)),
        0x6D => Some(Instr::Load(Reg::L, Reg::L)),
        0x6E => Some(Instr::LoadFromHl(Reg::L)),
        0x6F => Some(Instr::Load(Reg::L, Reg::A)),
        0x70 => Some(Instr::StoreAtHl(Reg::B)),
        0x71 => Some(Instr::StoreAtHl(Reg::C)),
        0x72 => Some(Instr::StoreAtHl(Reg::D)),
        0x73 => Some(Instr::StoreAtHl(Reg::E)),
        0x74 => Some(Instr::StoreAtHl(Reg::H)),
        0x75 => Some(Instr::StoreAtHl(Reg::L)),
        0x76 => Some(Instr::Halt),
        0x77 => Some(Instr::StoreAtHl(Reg::A)),
        0x78 => Some(Instr::Load(Reg::A, Reg::B)),
        0x79 => Some(Instr::Load(Reg::A, Reg::C)),
        0x7A => Some(Instr::Load(Reg::A, Reg::D)),
        0x7B => Some(Instr::Load(Reg::A, Reg::E)),
        0x7C => Some(Instr::Load(Reg::A, Reg::H)),
        0x7D => Some(Instr::Load(Reg::A, Reg::L)),
        0x7E => Some(Instr::LoadFromHl(Reg::A)),
        0x7F => Some(Instr::Load(Reg::A, Reg::A)),
        0x80 => Some(Instr::Add(Operand::Reg(Reg::B))),
        0x81 => Some(Instr::Add(Operand::Reg(Reg::C))),
        0x82 => Some(Instr::Add(Operand::Reg(Reg::D))),
        0x83 => Some(Instr::Add(Operand::Reg(Reg::E))),
        0x84 => Some(Instr::Add(Operand::Reg(Reg::H))),
        0x85 => Some(Instr::Add(Operand::Reg(Reg::L))),
        0x86 => Some(Instr::Add(Operand::AtHl)),
        0x87 => Some(Instr::Add(Operand::Reg(Reg::A))),
        0x90 => Some(Instr::Sub(Operand::Reg(Reg::B))),
        0x91 => Some(Instr::Sub(Operand::Reg(Reg::C))),
        0x92 => Some(Instr::Sub(Operand::Reg(Reg::D))),
        0x93 => Some(Instr::Sub(Operand::Reg(Reg::E))),
        0x94 => Some(Instr::Sub(Operand::Reg(Reg::H))),
        0x95 => Some(Instr::Sub(Operand::Reg(Reg::L))),
        0x96 => Some(Instr::Sub(Operand::AtHl)),
        0x97 => Some(Instr::Sub(Operand::Reg(Reg::A))),
        0xA0 => Some(Instr::AndSelf(Reg::B)),
        0xA1 => Some(Instr::AndSelf(Reg::C)),
        0xA2 => Some(Instr::AndSelf(Reg::D)),
        0xA3 => Some(Instr::AndSelf(Reg::E)),
        0xA4 => Some(Instr::AndSelf(Reg::H)),
        0xA5 => Some(Instr::AndSelf(Reg::L)),
        0xA6 => Some(Instr::And(Operand::AtHl)),
        0xA7 => Some(Instr::And(Operand::Reg(Reg::A))),
        0xA8 => Some(Instr::Xor(Operand::Reg(Reg::B))),
        0xA9 => Some(Instr::Xor(Operand::Reg(Reg::C))),
        0xAA => Some(Instr::Xor(Operand::Reg(Reg::D))),
        0xAB => Some(Instr::Xor(Operand::Reg(Reg::E))),
        0xAC => Some(Instr::Xor(Operand::Reg(Reg::H))),
        0xAD => Some(Instr::Xor(Operand::Reg(Reg::L))),
        0xAE => Some(Instr::Xor(Operand::AtHl)),
        0xAF => Some(Instr::ClearA),
        0xB0 => Some(Instr::OrSelf(Reg::B)),
        0xB1 => Some(Instr::Or(Operand::Reg(Reg::C))),
        0xB2 => Some(Instr::Or(Operand::Reg(Reg::D))),
        0xB3 => Some(Instr::Or(Operand::Reg(Reg::E))),
        0xB4 => Some(Instr::Or(Operand::Reg(Reg::H))),
        0xB5 => Some(Instr::Or(Operand::Reg(Reg::L))),
        0xB6 => Some(Instr::Or(Operand::AtHl)),
        0xB7 => Some(Instr::Or(Operand::Reg(Reg::A))),
        0xB8 => Some(Instr::Cp(Operand::Reg(Reg::B))),
        0xB9 => Some(Instr::Cp(Operand::Reg(Reg::C))),
        0xBA => Some(Instr::Cp(Operand::Reg(Reg::D))),
        0xBB => Some(Instr::Cp(Operand::Reg(Reg::E))),
        0xBC => Some(Instr::Cp(Operand::Reg(Reg::H))),
        0xBD => Some(Instr::Cp(Operand::Reg(Reg::L))),
        0xBE => Some(Instr::Cp(Operand::AtHl)),
        0xBF => Some(Instr::Cp(Operand::Reg(Reg::A))),
        0xC0 => Some(Instr::DropIf(Cond::NotZero)),
        0xC1 => Some(Instr::Pop(Pair::BC)),
        0xC3 => Some(Instr::Jp),
        0xC4 => Some(Instr::CallIf(Cond::NotZero)),
        0xC5 => Some(Instr::Push(Pair::BC)),
        0xC6 => Some(Instr::Add(Operand::Imm)),
        0xC9 => Some(Instr::Ret),
        0xCA => Some(Instr::JpIf(Cond::Zero)),
        0xCB => Some(Instr::Prefix),
        0xCC => Some(Instr::CallIf(Cond::Carry)),
        0xCD => Some(Instr::Call),
        0xD1 => Some(Instr::Pop(Pair::DE)),
        0xD4 => Some(Instr::CallIf(Cond::NotCarry)),
        0xD5 => Some(Instr::Push(Pair::DE)),
        0xD8 => Some(Instr::DropIf(Cond::Carry)),
        0xE0 => Some(Instr::StoreHigh),
        0xE1 => Some(Instr::Pop(Pair::HL)),
        0xE5 => Some(Instr::Push(Pair::HL)),
        0xE6 => Some(Instr::And(Operand::Imm)),
        0xEA => Some(Instr::StoreAAbs),
        0xEE => Some(Instr::XorImm),
        0xF0 => Some(Instr::LoadHigh),
        0xF1 => Some(Instr::PopAf),
        0xF3 => Some(Instr::Di),
        0xF5 => Some(Instr::PushAf),
        0xFB => Some(Instr::Ei),
        0xFE => Some(Instr::Cp(Operand::Imm)),
        0xFF => Some(Instr::Rst38),
        _ => None,
    }
}

/// The instruction that an opcode of the 0xCB table stands for.
pub open spec fn decode_cb_spec(opcode: u8) -> Option<CbInstr> {
    match opcode {
        0x18 => Some(CbInstr::Rr(Reg::B)),
        0x19 => Some(CbInstr::Rr(Reg::C)),
        0x1A => Some(CbInstr::Rr(Reg::D)),
        0x1B => Some(CbInstr::Rr(Reg::E)),
        0x1C => Some(CbInstr::Rr(Reg::H)),
        0x1D => Some(CbInstr::Rr(Reg::L)),
        0x1E => Some(CbInstr::RrAtHl),
        0x1F => Some(CbInstr::Rr(Reg::A)),
        0x30 => Some(CbInstr::Swap(Reg::B)),
        0x31 => Some(CbInstr::Swap(Reg::C)),
        0x32 => Some(CbInstr::Swap(Reg::D)),
        0x33 => Some(CbInstr::Swap(Reg::E)),
        0x34 => Some(CbInstr::Swap(Reg::H)),
        0x35 => Some(CbInstr::Swap(Reg::L)),
        0x36 => Some(CbInstr::SwapAtHl),
        0x37 => Some(CbInstr::Swap(Reg::A)),
        0x38 => Some(CbInstr::Srl(Reg::B)),
        0x39 => Some(CbInstr::Srl(Reg::C)),
        0x3A => Some(CbInstr::Srl(Reg::D)),
        0x3B => Some(CbInstr::Srl(Reg::E)),
        0x3C => Some(CbInstr::Srl(Reg::H)),
        0x3D => Some(CbInstr::Srl(Reg::L)),
        0x3E => Some(CbInstr::SrlAtHl),
        0x3F => Some(CbInstr::Srl(Reg::A)),
        0x7C => Some(CbInstr::Bit7H),
        _ => None,
    }
}

/// Decodes an opcode of the main table.
pub fn decode(opcode: u8) -> (r: Option<Instr>)
    ensures
        r == decode_spec(opcode),
{
    match opcode {
        0x00 => Some(Instr::Nop),
        0x01 => Some(Instr::LoadPairImm(Pair::BC)),
        0x02 => Some(Instr::LoadBcWithA),
        0x03 => Some(Instr::IncPair(Pair::BC)),
        0x04 => Some(Instr::Inc(Reg::B)),
        0x05 => Some(Instr::Dec(Reg::B)),
        0x06 => Some(Instr::LoadImmNoAdvance(Reg::B)),
        0x07 => Some(Instr::Rlca),
        0x0B => Some(Instr::DecPair(Pair::BC)),
        0x0C => Some(Instr::Inc(Reg::C)),
        0x0D => Some(Instr::Dec(Reg::C)),
        0x0E => Some(Instr::LoadImm(Reg::C)),
        0x0F => Some(Instr::Rrca),
        0x10 => Some(Instr::Stop),
        0x11 => Some(Instr::LoadPairImm(Pair::DE)),
        0x12 => Some(Instr::StoreAAtDe),
        0x13 => Some(Instr::IncPair(Pair::DE)),
        0x14 => Some(Instr::Inc(Reg::D)),
        0x17 => Some(Instr::Rla),
        0x18 => Some(Instr::Jr),
        0x1B => Some(Instr::DecPair(Pair::DE)),
        0x1C => Some(Instr::Inc(Reg::E)),
        0x1F => Some(Instr::Rra),
        0x20 => Some(Instr::JrIf(Cond::NotZero)),
        0x21 => Some(Instr::LoadPairImm(Pair::HL)),
        0x22 => Some(Instr::StoreAHlInc),
        0x23 => Some(Instr::IncPair(Pair::HL)),
        0x25 => Some(Instr::Dec(Reg::H)),
        0x26 => Some(Instr::LoadImm(Reg::H)),
        0x2A => Some(Instr::LoadAHlInc),
        0x2B => Some(Instr::DecPair(Pair::HL)),
        0x2C => Some(Instr::Inc(Reg::L)),
        0x2D => Some(Instr::Dec(Reg::L)),
        0x2F => Some(Instr::Cpl),
        0x30 => Some(Instr::JrIf(Cond::NotCarry)),
        0x31 => Some(Instr::LoadSpImm),
        0x32 => Some(Instr::StoreAHlDec),
        0x33 => Some(Instr::IncSp),
        0x36 => Some(Instr::RewriteAtHl),
        0x37 => Some(Instr::Scf),
        0x38 => Some(Instr::JrIf(Cond::Carry)),
        0x3A => Some(Instr::LoadAHlDec),
        0x3B => Some(Instr::DecSp),
        0x3C => Some(Instr::Inc(Reg::A)),
        0x3D => Some(Instr::Dec(Reg::A)),
        0x3E => Some(Instr::LoadImm(Reg::A)),
        0x3F => Some(Instr::Ccf),
        0x40 => Some(Instr::Load(Reg::B, Reg::B)),
        0x41 => Some(Instr::Load(Reg::B, Reg::C)),
        0x42 => Some(Instr::Load(Reg::B, Reg::D)),
        0x43 => Some(Instr::Load(Reg::B, Reg::E)),
        0x44 => Some(Instr::Load(Reg::B, Reg::H)),
        0x45 => Some(Instr::Load(Reg::B, Reg::L)),
        0x46 => Some(Instr::LoadFromHl(Reg::B)),
        0x47 => Some(Instr::Load(Reg::B, Reg::A)),
        0x48 => Some(Instr::Load(Reg::C, Reg::B)),
        0x49 => Some(Instr::Load(Reg::C, Reg::C)),
        0x4A => Some(Instr::Load(Reg::C, Reg::D)),
        0x4B => Some(Instr::Load(Reg::C, Reg::E)),
        0x4C => Some(Instr::Load(Reg::C, Reg::H)),
        0x4D => Some(Instr::Load(Reg::C, Reg::L)),
        0x4E => Some(Instr::LoadFromHl(Reg::C)),
        0x4F => Some(Instr::Load(Reg::C, Reg::A)),
        0x50 => Some(Instr::Load(Reg::D, Reg::B)),
        0x51 => Some(Instr::Load(Reg::D, Reg::C)),
        0x52 => Some(Instr::Load(Reg::D, Reg::D)),
        0x53 => Some(Instr::Load(Reg::D, Reg::E)),
        0x54 => Some(Instr::Load(Reg::D, Reg::H)),
        0x55 => Some(Instr::Load(Reg::D, Reg::L)),
        0x56 => Some(Instr::LoadFromHl(Reg::D)),
        0x57 => Some(Instr::Load(Reg::D, Reg::A)),
        0x58 => Some(Instr::Load(Reg::E, Reg::B)),
        0x59 => Some(Instr::Load(Reg::E, Reg::C)),
        0x5A => Some(Instr::Load(Reg::E, Reg::D)),
        0x5B => Some(Instr::Load(Reg::E, Reg::E)),
        0x5C => Some(Instr::Load(Reg::E, Reg::H)),
        0x5D => Some(Instr::Load(Reg::E, Reg::L)),
        0x5E => Some(Instr::LoadFromHl(Reg::E)),
        0x5F => Some(Instr::Load(Reg::E, Reg::A)),
        0x60 => Some(Instr::Load(Reg::H, Reg::B)),
        0x61 => Some(Instr::Load(Reg::H, Reg::C)),
        0x62 => Some(Instr::Load(Reg::H, Reg::D)),
        0x63 => Some(Instr::Load(Reg::H, Reg::E)),
        0x64 => Some(Instr::Load(Reg::H, Reg::H)),
        0x65 => Some(Instr::Load(Reg::H, Reg::L)),
        0x66 => Some(Instr::LoadFromHl(Reg::H)),
        0x67 => Some(Instr::Load(Reg::H, Reg::A)),
        0x68 => Some(Instr::Load(Reg::L, Reg::B)),
        0x69 => Some(Instr::Load(Reg::L, Reg::C)),
        0x6A => Some(Instr::Load(Reg::L, Reg::D)),
        0x6B => Some(Instr::Load(Reg::L, Reg::E)),
        0x6C => Some(Instr::Load(Reg::L, Reg::H)),
        0x6D => Some(Instr::Load(Reg::L, Reg::L)),
        0x6E => Some(Instr::LoadFromHl(Reg::L)),
        0x6F => Some(Instr::Load(Reg::L, Reg::A)),
        0x70 => Some(Instr::StoreAtHl(Reg::B)),
        0x71 => Some(Instr::StoreAtHl(Reg::C)),
        0x72 => Some(Instr::StoreAtHl(Reg::D)),
        0x73 => Some(Instr::StoreAtHl(Reg::E)),
        0x74 => Some(Instr::StoreAtHl(Reg::H)),
        0x75 => Some(Instr::StoreAtHl(Reg::L)),
        0x76 => Some(Instr::Halt),
        0x77 => Some(Instr::StoreAtHl(Reg::A)),
        0x78 => Some(Instr::Load(Reg::A, Reg::B)),
        0x79 => Some(Instr::Load(Reg::A, Reg::C)),
        0x7A => Some(Instr::Load(Reg::A, Reg::D)),
        0x7B => Some(Instr::Load(Reg::A, Reg::E)),
        0x7C => Some(Instr::Load(Reg::A, Reg::H)),
        0x7D => Some(Instr::Load(Reg::A, Reg::L)),
        0x7E => Some(Instr::LoadFromHl(Reg::A)),
        0x7F => Some(Instr::Load(Reg::A, Reg::A)),
        0x80 => Some(Instr::Add(Operand::Reg(Reg::B))),
        0x81 => Some(Instr::Add(Operand::Reg(Reg::C))),
        0x82 => Some(Instr::Add(Operand::Reg(Reg::D))),
        0x83 => Some(Instr::Add(Operand::Reg(Reg::E))),
        0x84 => Some(Instr::Add(Operand::Reg(Reg::H))),
        0x85 => Some(Instr::Add(Operand::Reg(Reg::L))),
        0x86 => Some(Instr::Add(Operand::AtHl)),
        0x87 => Some(Instr::Add(Operand::Reg(Reg::A))),
        0x90 => Some(Instr::Sub(Operand::Reg(Reg::B))),
        0x91 => Some(Instr::Sub(Operand::Reg(Reg::C))),
        0x92 => Some(Instr::Sub(Operand::Reg(Reg::D))),
        0x93 => Some(Instr::Sub(Operand::Reg(Reg::E))),
        0x94 => Some(Instr::Sub(Operand::Reg(Reg::H))),
        0x95 => Some(Instr::Sub(Operand::Reg(Reg::L))),
        0x96 => Some(Instr::Sub(Operand::AtHl)),
        0x97 => Some(Instr::Sub(Operand::Reg(Reg::A))),
        0xA0 => Some(Instr::AndSelf(Reg::B)),
        0xA1 => Some(Instr::AndSelf(Reg::C)),
        0xA2 => Some(Instr::AndSelf(Reg::D)),
        0xA3 => Some(Instr::AndSelf(Reg::E)),
        0xA4 => Some(Instr::AndSelf(Reg::H)),
        0xA5 => Some(Instr::AndSelf(Reg::L)),
        0xA6 => Some(Instr::And(Operand::AtHl)),
        0xA7 => Some(Instr::And(Operand::Reg(Reg::A))),
        0xA8 => Some(Instr::Xor(Operand::Reg(Reg::B))),
        0xA9 => Some(Instr::Xor(Operand::Reg(Reg::C))),
        0xAA => Some(Instr::Xor(Operand::Reg(Reg::D))),
        0xAB => Some(Instr::Xor(Operand::Reg(Reg::E))),
        0xAC => Some(Instr::Xor(Operand::Reg(Reg::H))),
        0xAD => Some(Instr::Xor(Operand::Reg(Reg::L))),
        0xAE => Some(Instr::Xor(Operand::AtHl)),
        0xAF => Some(Instr::ClearA),
        0xB0 => Some(Instr::OrSelf(Reg::B)),
        0xB1 => Some(Instr::Or(Operand::Reg(Reg::C))),
        0xB2 => Some(Instr::Or(Operand::Reg(Reg::D))),
        0xB3 => Some(Instr::Or(Operand::Reg(Reg::E))),
        0xB4 => Some(Instr::Or(Operand::Reg(Reg::H))),
        0xB5 => Some(Instr::Or(Operand::Reg(Reg::L))),
        0xB6 => Some(Instr::Or(Operand::AtHl)),
        0xB7 => Some(Instr::Or(Operand::Reg(Reg::A))),
        0xB8 => Some(Instr::Cp(Operand::Reg(Reg::B))),
        0xB9 => Some(Instr::Cp(Operand::Reg(Reg::C))),
        0xBA => Some(Instr::Cp(Operand::Reg(Reg::D))),
        0xBB => Some(Instr::Cp(Operand::Reg(Reg::E))),
        0xBC => Some(Instr::Cp(Operand::Reg(Reg::H))),
        0xBD => Some(Instr::Cp(Operand::Reg(Reg::L))),
        0xBE => Some(Instr::Cp(Operand::AtHl)),
        0xBF => Some(Instr::Cp(Operand::Reg(Reg::A))),
        0xC0 => Some(Instr::DropIf(Cond::NotZero)),
        0xC1 => Some(Instr::Pop(Pair::BC)),
        0xC3 => Some(Instr::Jp),
        0xC4 => Some(Instr::CallIf(Cond::NotZero)),
        0xC5 => Some(Instr::Push(Pair::BC)),
        0xC6 => Some(Instr::Add(Operand::Imm)),
        0xC9 => Some(Instr::Ret),
        0xCA => Some(Instr::JpIf(Cond::Zero)),
        0xCB => Some(Instr::Prefix),
        0xCC => Some(Instr::CallIf(Cond::Carry)),
        0xCD => Some(Instr::Call),
        0xD1 => Some(Instr::Pop(Pair::DE)),
        0xD4 => Some(Instr::CallIf(Cond::NotCarry)),
        0xD5 => Some(Instr::Push(Pair::DE)),
        0xD8 => Some(Instr::DropIf(Cond::Carry)),
        0xE0 => Some(Instr::StoreHigh),
        0xE1 => Some(Instr::Pop(Pair::HL)),
        0xE5 => Some(Instr::Push(Pair::HL)),
        0xE6 => Some(Instr::And(Operand::Imm)),
        0xEA => Some(Instr::StoreAAbs),
        0xEE => Some(Instr::XorImm),
        0xF0 => Some(Instr::LoadHigh),
        0xF1 => Some(Instr::PopAf),
        0xF3 => Some(Instr::Di),
        0xF5 => Some(Instr::PushAf),
        0xFB => Some(Instr::Ei),
        0xFE => Some(Instr::Cp(Operand::Imm)),
        0xFF => Some(Instr::Rst38),
        _ => None,
    }
}

/// Decodes an opcode of the 0xCB table.
pub fn decode_cb(opcode: u8) -> (r: Option<CbInstr>)
    ensures
        r == decode_cb_spec(opcode),
{
    match opcode {
        0x18 => Some(CbInstr::Rr(Reg::B)),
        0x19 => Some(CbInstr::Rr(Reg::C)),
        0x1A => Some(CbInstr::Rr(Reg::D)),
        0x1B => Some(CbInstr::Rr(Reg::E)),
        0x1C => Some(CbInstr::Rr(Reg::H)),
        0x1D => Some(CbInstr::Rr(Reg::L)),
        0x1E => Some(CbInstr::RrAtHl),
        0x1F => Some(CbInstr::Rr(Reg::A)),
        0x30 => Some(CbInstr::Swap(Reg::B)),
        0x31 => Some(CbInstr::Swap(Reg::C)),
        0x32 => Some(CbInstr::Swap(Reg::D)),
        0x33 => Some(CbInstr::Swap(Reg::E)),
        0x34 => Some(CbInstr::Swap(Reg::H)),
        0x35 => Some(CbInstr::Swap(Reg::L)),
        0x36 => Some(CbInstr::SwapAtHl),
        0x37 => Some(CbInstr::Swap(Reg::A)),
        0x38 => Some(CbInstr::Srl(Reg::B)),
        0x39 => Some(CbInstr::Srl(Reg::C)),
        0x3A => Some(CbInstr::Srl(Reg::D)),
        0x3B => Some(CbInstr::Srl(Reg::E)),
        0x3C => Some(CbInstr::Srl(Reg::H)),
        0x3D => Some(CbInstr::Srl(Reg::L)),
        0x3E => Some(CbInstr::SrlAtHl),
        0x3F => Some(CbInstr::Srl(Reg::A)),
        0x7C => Some(CbInstr::Bit7H),
        _ => None,
    }
}

/// How many bytes after the opcode the instruction moves the program counter over.
pub open spec fn operand_len(i: Instr) -> int {
    match i {
        Instr::LoadPairImm(_) | Instr::LoadSpImm | Instr::Jp | Instr::JpIf(_) | Instr::Call
        | Instr::CallIf(_) => 2,
        Instr::StoreAAbs => 3,
        Instr::LoadImm(_) | Instr::Stop | Instr::Jr | Instr::JrIf(_) | Instr::RewriteAtHl
        | Instr::Prefix | Instr::StoreHigh | Instr::LoadHigh | Instr::XorImm => 1,
        Instr::Add(o) | Instr::Sub(o) | Instr::And(o) | Instr::Xor(o) | Instr::Or(o) | Instr::Cp(o) =>
            if o is Imm { 1 } else { 0 },
        _ => 0,
    }
}

} // verus!
