use vstd::prelude::*;
use crate::bus::{BusView, MemoryBus, is_writable};
use crate::instr::{Cond, Operand, Instr, CbInstr, decode, decode_cb, decode_spec, decode_cb_spec, operand_len};
use crate::registers::{Registers, Reg, Pair, word, high_byte, low_byte, lemma_register_bits};

verus! {

/// The processor state as a mathematical value.
#[verifier::ext_equal]
pub struct CpuView {
    pub registers: Registers,
    pub pc: u16,
    pub sp: u16,
    pub ime: bool,
    pub bus: BusView,
}

/// The signed displacement that a relative jump reads from its operand byte.
pub open spec fn signed_offset(b: u8) -> i16 {
    if b < 128 {
        b as i16
    } else {
        (b - 256) as i16
    }
}

/// Whether a branch condition holds for the given flags.
pub open spec fn cond_holds(r: Registers, c: Cond) -> bool {
    match c {
        Cond::NotZero => !r.zero(),
        Cond::Zero => r.zero(),
        Cond::NotCarry => !r.carry(),
        Cond::Carry => r.carry(),
    }
}

/// The first serial output of two consecutive writes.
pub open spec fn first_output(a: Option<u8>, b: Option<u8>) -> Option<u8> {
    match a {
        Some(x) => Some(x),
        None => b,
    }
}

impl CpuView {
    pub open spec fn with_registers(self, r: Registers) -> CpuView {
        CpuView { registers: r, ..self }
    }

    /// The state with the program counter moved forward by `n` bytes.
    pub open spec fn advance(self, n: int) -> CpuView {
        CpuView { pc: (self.pc + n) as u16, ..self }
    }

    /// The byte at the program counter.
    pub open spec fn imm8(self) -> u8 {
        self.bus.read(self.pc)
    }

    /// The little-endian word at the program counter.
    pub open spec fn imm16(self) -> u16 {
        word(self.bus.read((self.pc + 1) as u16), self.bus.read(self.pc))
    }

    /// The state after a write to memory, and the byte the write sends over the serial port.
    pub open spec fn write(self, addr: u16, value: u8) -> (CpuView, Option<u8>) {
        (CpuView { bus: self.bus.write(addr, value), ..self }, self.bus.serial_output(addr, value))
    }

    /// The state after pushing a word: the high byte goes to SP - 1, the low byte to SP - 2.
    pub open spec fn push(self, value: u16) -> (CpuView, Option<u8>) {
        let hi_addr = (self.sp - 1) as u16;
        let lo_addr = (self.sp - 2) as u16;
        let bus1 = self.bus.write(hi_addr, high_byte(value));
        (
            CpuView { sp: lo_addr, bus: bus1.write(lo_addr, low_byte(value)), ..self },
            first_output(
                self.bus.serial_output(hi_addr, high_byte(value)),
                bus1.serial_output(lo_addr, low_byte(value)),
            ),
        )
    }

    /// The state after popping a word, and the word popped: low byte at SP, high byte at SP + 1.
    pub open spec fn pop(self) -> (CpuView, u16) {
        let sp1 = self.sp.wrapping_add(1);
        (
            CpuView { sp: sp1.wrapping_add(1), ..self },
            word(self.bus.read(sp1), self.bus.read(self.sp)),
        )
    }

    /// The value of an 8-bit operand.
    pub open spec fn operand(self, o: Operand) -> u8 {
        match o {
            Operand::Reg(x) => self.registers.reg(x),
            Operand::AtHl => self.bus.read(self.registers.hl()),
            Operand::Imm => self.imm8(),
        }
    }

    /// The state after fetching an 8-bit operand.
    pub open spec fn after_operand(self, o: Operand) -> CpuView {
        match o {
            Operand::Imm => self.advance(1),
            _ => self,
        }
    }

    /// Whether the instruction pushes onto the stack in this state.
    pub open spec fn pushes(self, i: Instr) -> bool {
        match i {
            Instr::Push(_) | Instr::PushAf | Instr::Call | Instr::Rst38 => true,
            Instr::CallIf(c) => cond_holds(self.registers, c),
            _ => false,
        }
    }

    /// Whether the instruction, its program counter just past the opcode, can
    /// run in this state: its operand bytes fit below the top of the address
    /// space, the stack pointer has room for what it pushes, and a prefixed
    /// opcode is one of the implemented ones.
    pub open spec fn can_execute(self, i: Instr) -> bool {
        &&& self.pc + operand_len(i) <= 0xFFFF
        &&& self.pushes(i) ==> self.sp >= 2
        &&& i is Prefix ==> decode_cb_spec(self.imm8()) is Some
    }

    /// The effect of an instruction of the 0xCB table (program counter past both opcode bytes).
    pub open spec fn execute_cb(self, i: CbInstr) -> (CpuView, Option<u8>) {
        let r = self.registers;
        let carry_in: u8 = if r.carry() { 0x80 } else { 0x00 };
        match i {
            CbInstr::Rr(x) => {
                let v = r.reg(x);
                let res = (v >> 1u8) | carry_in;
                let r1 = r.with_reg(x, res);
                (self.with_registers(Registers { f: Registers::flags_znhc(r1.f, res == 0, false, false, v & 1 != 0), ..r1 }), None)
            },
            CbInstr::RrAtHl => {
                let v = self.bus.read(r.hl());
                let res = (v >> 1u8) | carry_in;
                (self.with_registers(Registers { f: Registers::flags_znhc(r.f, res == 0, false, false, v & 1 != 0), ..r }), None)
            },
            CbInstr::Swap(x) => {
                let v = r.reg(x);
                let res = (v << 4u8) | (v >> 4u8);
                let r1 = r.with_reg(x, res);
                (self.with_registers(Registers { f: Registers::flags_znhc(r1.f, res == 0, false, false, false), ..r1 }), None)
            },
            CbInstr::SwapAtHl => {
                let v = self.bus.read(r.hl());
                let res = (v << 4u8) | (v >> 4u8);
                let (s1, out) = self.write(r.hl(), res);
                (s1.with_registers(Registers { f: Registers::flags_znhc(r.f, res == 0, false, false, false), ..r }), out)
            },
            CbInstr::Srl(x) => {
                let v = r.reg(x);
                let res = v >> 1u8;
                let r1 = r.with_reg(x, res);
                (self.with_registers(Registers { f: Registers::flags_znhc(r1.f, res == 0, false, false, v & 1 != 0), ..r1 }), None)
            },
            CbInstr::SrlAtHl => {
                let v = self.bus.read(r.hl());
                let res = v >> 1u8;
                let (s1, out) = self.write(r.hl(), res);
                (s1.with_registers(Registers { f: Registers::flags_znhc(r.f, res == 0, false, false, v & 1 != 0), ..r }), out)
            },
            CbInstr::Bit7H => {
                (self.with_registers(Registers { f: Registers::flags_znh(r.f, r.h & 0x80 == 0, false, true), ..r }), None)
            },
        }
    }

    /// The effect of an instruction of the main table, the program counter just past its opcode.
    pub open spec fn execute(self, i: Instr) -> (CpuView, Option<u8>) {
        let r = self.registers;
        let carry_in: u8 = if r.carry() { 0x80 } else { 0x00 };
        match i {
            Instr::Nop | Instr::Halt => (self, None),
            Instr::LoadPairImm(p) => (self.advance(2).with_registers(r.with_pair(p, self.imm16())), None),
            Instr::LoadSpImm => (CpuView { sp: self.imm16(), ..self.advance(2) }, None),
            Instr::LoadBcWithA => (self.with_registers(r.with_pair(Pair::BC, r.a as u16)), None),
            Instr::IncPair(p) => (self.with_registers(r.with_pair(p, r.pair(p).wrapping_add(1))), None),
            Instr::DecPair(p) => (self.with_registers(r.with_pair(p, r.pair(p).wrapping_sub(1))), None),
            Instr::IncSp => (CpuView { sp: self.sp.wrapping_add(1), ..self }, None),
            Instr::DecSp => (CpuView { sp: self.sp.wrapping_sub(1), ..self }, None),
            Instr::Inc(x) => {
                let v = r.reg(x);
                let res = v.wrapping_add(1);
                let r1 = r.with_reg(x, res);
                (self.with_registers(Registers { f: Registers::flags_znh(r1.f, res == 0, false, v % 16 == 15), ..r1 }), None)
            },
            Instr::Dec(x) => {
                let v = r.reg(x);
                let res = v.wrapping_sub(1);
                let r1 = r.with_reg(x, res);
                (self.with_registers(Registers { f: Registers::flags_znh(r1.f, res == 0, true, v % 16 == 15), ..r1 }), None)
            },
            Instr::LoadImm(x) => (self.advance(1).with_registers(r.with_reg(x, self.imm8())), None),
            Instr::LoadImmNoAdvance(x) => (self.with_registers(r.with_reg(x, self.imm8())), None),
            Instr::Rlca => {
                let res = (r.a << 1u8) | (r.a >> 7u8);
                (self.with_registers(Registers { a: res, f: Registers::flags_znhc(r.f, false, false, false, r.a >> 7u8 != 0), ..r }), None)
            },
            Instr::Rrca => {
                let res = (r.a >> 1u8) | (r.a << 7u8);
                (self.with_registers(Registers { a: res, f: Registers::flags_znhc(r.f, false, false, false, r.a << 7u8 != 0), ..r }), None)
            },
            Instr::Rla => {
                let res = (r.a << 1u8) | carry_in;
                (self.with_registers(Registers { a: res, f: Registers::flags_znhc(r.f, false, false, false, r.a & 1 != 0), ..r }), None)
            },
            Instr::Rra => {
                let res = (r.a >> 1u8) | carry_in;
                (self.with_registers(Registers { a: res, f: Registers::flags_znhc(r.f, false, false, false, r.a & 1 != 0), ..r }), None)
            },
            Instr::Stop => (self.advance(1), None),
            Instr::StoreAAtDe => self.write(r.de(), r.a),
            Instr::Jr => {
                let next = self.advance(1);
                (CpuView { pc: next.pc.wrapping_add_signed(signed_offset(self.imm8())), ..next }, None)
            },
            Instr::JrIf(c) => {
                let next = self.advance(1);
                if cond_holds(r, c) {
                    (CpuView { pc: next.pc.wrapping_add_signed(signed_offset(self.imm8())), ..next }, None)
                } else {
                    (next, None)
                }
            },
            Instr::StoreAHlInc => {
                let (s1, out) = self.write(r.hl(), r.a);
                (s1.with_registers(r.with_pair(Pair::HL, r.hl().wrapping_add(1))), out)
            },
            Instr::StoreAHlDec => {
                let (s1, out) = self.write(r.hl(), r.a);
                (s1.with_registers(r.with_pair(Pair::HL, r.hl().wrapping_sub(1))), out)
            },
            Instr::LoadAHlInc => {
                let r1 = Registers { a: self.bus.read(r.hl()), ..r };
                (self.with_registers(r1.with_pair(Pair::HL, r.hl().wrapping_add(1))), None)
            },
            Instr::LoadAHlDec => {
                let r1 = Registers { a: self.bus.read(r.hl()), ..r };
                (self.with_registers(r1.with_pair(Pair::HL, r.hl().wrapping_sub(1))), None)
            },
            Instr::Cpl => {
                let r1 = Registers { a: !r.a, ..r };
                (self.with_registers(Registers {
                    f: crate::registers::with_bit(crate::registers::with_bit(r1.f, 6, true), 5, true),
                    ..r1
                }), None)
            },
            Instr::RewriteAtHl => self.advance(1).write(r.hl(), self.bus.read(r.hl())),
            Instr::Scf => (self.with_registers(Registers {
                f: crate::registers::with_bit(crate::registers::with_bit(crate::registers::with_bit(r.f, 6, false), 5, false), 4, true),
                ..r
            }), None),
            Instr::Ccf => (self.with_registers(Registers {
                f: crate::registers::with_bit(crate::registers::with_bit(crate::registers::with_bit(r.f, 6, false), 5, false), 4, !r.carry()),
                ..r
            }), None),
            Instr::Load(dst, src) => (self.with_registers(r.with_reg(dst, r.reg(src))), None),
            Instr::LoadFromHl(dst) => (self.with_registers(r.with_reg(dst, self.bus.read(r.hl()))), None),
            Instr::StoreAtHl(src) => self.write(r.hl(), r.reg(src)),
            Instr::Add(o) => {
                let v = self.operand(o);
                let sum = r.a + v;
                let res = (sum % 256) as u8;
                (self.after_operand(o).with_registers(Registers {
                    a: res,
                    f: Registers::flags_znhc(r.f, res == 0, false, r.a % 16 + v % 16 > 15, sum > 255),
                    ..r
                }), None)
            },
            Instr::Sub(o) => {
                let v = self.operand(o);
                let res = r.a.wrapping_sub(v);
                (self.after_operand(o).with_registers(Registers {
                    a: res,
                    f: Registers::flags_znhc(r.f, res == 0, true, r.a % 16 < v % 16, r.a < v),
                    ..r
                }), None)
            },
            Instr::And(o) => {
                let res = r.a & self.operand(o);
                (self.after_operand(o).with_registers(Registers {
                    a: res,
                    f: Registers::flags_znhc(r.f, res == 0, false, true, false),
                    ..r
                }), None)
            },
            Instr::AndSelf(x) => (self.with_registers(Registers {
                f: Registers::flags_znhc(r.f, r.reg(x) == 0, false, true, false),
                ..r
            }), None),
            Instr::Xor(o) => {
                let res = r.a ^ self.operand(o);
                (self.after_operand(o).with_registers(Registers {
                    a: res,
                    f: Registers::flags_znhc(r.f, res == 0, false, false, false),
                    ..r
                }), None)
            },
            Instr::ClearA => (self.with_registers(Registers { a: 0, f: 0x80, ..r }), None),
            Instr::XorImm => {
                let v = self.imm8();
                (self.advance(1).with_registers(Registers {
                    a: r.a ^ v,
                    f: crate::registers::with_bit(r.f, 7, v == 0),
                    ..r
                }), None)
            },
            Instr::Or(o) => {
                let res = r.a | self.operand(o);
                (self.after_operand(o).with_registers(Registers {
                    a: res,
                    f: Registers::flags_znhc(r.f, res == 0, false, false, false),
                    ..r
                }), None)
            },
            Instr::OrSelf(x) => (self.with_registers(Registers {
                f: Registers::flags_znhc(r.f, r.reg(x) == 0, false, false, false),
                ..r
            }), None),
            Instr::Cp(o) => {
                let v = self.operand(o);
                (self.after_operand(o).with_registers(Registers {
                    f: Registers::flags_znhc(r.f, v == r.a, true, r.a % 16 < v % 16, r.a < v),
                    ..r
                }), None)
            },
            Instr::DropIf(c) => if cond_holds(r, c) { (self.pop().0, None) } else { (self, None) },
            Instr::Pop(p) => {
                let (s1, v) = self.pop();
                (s1.with_registers(r.with_pair(p, v)), None)
            },
            Instr::PopAf => {
                let (s1, v) = self.pop();
                let af = v & 0xFFF0u16;
                let f0 = low_byte(af);
                let f1 = crate::registers::with_bit(f0, 7, f0 == 0);
                let f2 = crate::registers::with_bit(f1, 6, f1 & 0x08 == 0x08);
                let f3 = crate::registers::with_bit(f2, 5, f2 & 0x10 == 0x10);
                let f4 = crate::registers::with_bit(f3, 4, f3 & 0x20 == 0x20);
                (s1.with_registers(Registers { a: high_byte(af), f: f4, ..r }), None)
            },
            Instr::Push(p) => self.push(r.pair(p)),
            Instr::PushAf => self.push(word(r.a, r.f & 0xF0u8)),
            Instr::Jp => (CpuView { pc: self.imm16(), ..self }, None),
            Instr::JpIf(c) => {
                let next = self.advance(2);
                if cond_holds(r, c) { (CpuView { pc: self.imm16(), ..next }, None) } else { (next, None) }
            },
            Instr::Call => {
                let (s1, out) = self.advance(2).push(((self.pc + 2) as u16));
                (CpuView { pc: self.imm16(), ..s1 }, out)
            },
            Instr::CallIf(c) => {
                let next = self.advance(2);
                if cond_holds(r, c) {
                    let (s1, out) = next.push(next.pc);
                    (CpuView { pc: self.imm16(), ..s1 }, out)
                } else {
                    (next, None)
                }
            },
            Instr::Ret => {
                let (s1, v) = self.pop();
                (CpuView { pc: v, ..s1 }, None)
            },
            Instr::Prefix => match decode_cb_spec(self.imm8()) {
                Some(ci) => self.advance(1).execute_cb(ci),
                None => (self.advance(1), None),
            },
            Instr::StoreHigh => self.advance(1).write((0xFF00 + self.imm8()) as u16, r.a),
            Instr::LoadHigh => (self.advance(1).with_registers(Registers {
                a: self.bus.read((0xFF00 + self.imm8()) as u16),
                ..r
            }), None),
            Instr::StoreAAbs => self.advance(3).write(self.imm16(), r.a),
            Instr::Di => (CpuView { ime: false, ..self }, None),
            Instr::Ei => (CpuView { ime: true, ..self }, None),
            Instr::Rst38 => {
                let (s1, out) = self.push(self.pc);
                (CpuView { pc: 0x0038, ..s1 }, out)
            },
        }
    }

    /// Whether the instruction is RET NZ, a conditional CALL or the
    /// conditional JP, and its condition does not hold in this state.
    pub open spec fn branch_not_taken(self, i: Instr) -> bool {
        match i {
            Instr::DropIf(Cond::NotZero) => !cond_holds(self.registers, Cond::NotZero),
            Instr::CallIf(c) | Instr::JpIf(c) => !cond_holds(self.registers, c),
            _ => false,
        }
    }

    /// Whether the processor can carry out the instruction at the program counter.
    pub open spec fn can_step(self) -> bool {
        &&& self.pc < 0xFFFF
        &&& decode_spec(self.imm8()) is Some
        &&& self.advance(1).can_execute(decode_spec(self.imm8())->Some_0)
    }

    /// Why the instruction at the program counter cannot be carried out, in
    /// the order in which the processor would run into it; `None` when it can.
    pub open spec fn step_error(self) -> Option<StepError> {
        if self.pc == 0xFFFF {
            Some(StepError::ProgramCounterOverflow)
        } else {
            match decode_spec(self.imm8()) {
                None => Some(StepError::UnknownOpcode(self.imm8())),
                Some(i) => {
                    let next = self.advance(1);
                    if next.pc + operand_len(i) > 0xFFFF {
                        Some(StepError::ProgramCounterOverflow)
                    } else if i is Prefix && decode_cb_spec(next.imm8()) is None {
                        Some(StepError::UnknownCbOpcode(next.imm8()))
                    } else if next.pushes(i) && next.sp < 2 {
                        Some(StepError::StackOverflow)
                    } else {
                        None
                    }
                },
            }
        }
    }

    /// The state after one instruction, and the byte it sent over the serial port.
    pub open spec fn step(self) -> (CpuView, Option<u8>) {
        match decode_spec(self.imm8()) {
            Some(i) => self.advance(1).execute(i),
            None => (self, None),
        }
    }
}

/// Facts about the byte operations that the instructions use.
proof fn lemma_alu_bits()
    by (bit_vector)
    ensures
        forall|x: u8| #[trigger] (x & 0x0Fu8) == x % 16,
        forall|x: u8| #[trigger] (x & x) == x,
        forall|x: u8| #[trigger] (x | x) == x,
        forall|x: u8| #[trigger] (x ^ x) == 0,
        forall|w: u16| #[trigger] (w as u8) == (w % 256) as u8,
        forall|b: u8| #![trigger (b as i8 as i16)] b < 128 ==> (b as i8 as i16) == b as i16,
        forall|b: u8| #![trigger (b as i8 as i16)] b >= 128 ==> (b as i8 as i16) == ((b as i16) - 256) as i16,
        forall|b: u8| #[trigger] (0xFF00u16 | (b as u16)) == (0xFF00 + b) as u16,
{
}

/// How many bytes after the opcode the instruction moves the program counter over.
fn operand_len_exec(i: Instr) -> (n: u8)
    ensures
        n == operand_len(i),
{
    match i {
        Instr::LoadPairImm(_) | Instr::LoadSpImm | Instr::Jp | Instr::JpIf(_) | Instr::Call
        | Instr::CallIf(_) => 2,
        Instr::StoreAAbs => 3,
        Instr::LoadImm(_) | Instr::Stop | Instr::Jr | Instr::JrIf(_) | Instr::RewriteAtHl
        | Instr::Prefix | Instr::StoreHigh | Instr::LoadHigh | Instr::XorImm => 1,
        Instr::Add(Operand::Imm) | Instr::Sub(Operand::Imm) | Instr::And(Operand::Imm)
        | Instr::Xor(Operand::Imm) | Instr::Or(Operand::Imm) | Instr::Cp(Operand::Imm) => 1,
        _ => 0,
    }
}

/// What one executed instruction produced besides its effect on the state.
#[derive(Clone, Copy, Debug, PartialEq, Eq, Structural)]
pub struct StepOutcome {
    /// The instruction decoded from the main opcode table.
    pub instr: Instr,
    /// The byte sent over the serial port, if any.
    pub serial: Option<u8>,
    /// Whether the instruction was RET NZ, a conditional CALL or the
    /// conditional JP, and its condition did not hold.
    pub branch_not_taken: bool,
}

/// Why an instruction could not be carried out.
#[derive(Clone, Copy, Debug, PartialEq, Eq, Structural)]
pub enum StepError {
    /// The opcode at the program counter is not implemented.
    UnknownOpcode(u8),
    /// The opcode after a 0xCB prefix is not implemented.
    UnknownCbOpcode(u8),
    /// Fetching the instruction or its operands would move the program counter past 0xFFFF.
    ProgramCounterOverflow,
    /// A push would move the stack pointer below 0x0000.
    StackOverflow,
}

/// The processor: registers, program counter, stack pointer, interrupt master enable and the memory bus.
pub struct CPU {
    pub registers: Registers,
    pub pc: u16,
    pub sp: u16,
    pub bus: MemoryBus,
    /// Interrupt master enable.
    pub ime: bool,
}

impl View for CPU {
    type V = CpuView;

    open spec fn view(&self) -> CpuView {
        CpuView { registers: self.registers, pc: self.pc, sp: self.sp, ime: self.ime, bus: self.bus@ }
    }
}

impl CPU {
    /// A processor at the cartridge entry point 0x0100, with the stack at 0xDFFF.
    pub fn new(bus: MemoryBus) -> (cpu: Self)
        ensures
            cpu@ == (CpuView {
                registers: Registers { a: 0, b: 0, c: 0, d: 0, e: 0, f: 0, h: 0, l: 0 },
                pc: 0x0100,
                sp: 0xDFFF,
                ime: false,
                bus: bus@,
            }),
    {
        CPU { registers: Registers::new(), pc: 0x0100, sp: 0xDFFF, bus, ime: false }
    }

    /// Reads the byte at the program counter and moves past it.
    fn fetch_byte(&mut self) -> (v: u8)
        requires
            old(self).pc < 0xFFFF,
        ensures
            v == old(self)@.imm8(),
            final(self)@ == old(self)@.advance(1),
    {
        let v = self.bus.read_byte(self.pc);
        self.pc += 1;
        v
    }

    /// Reads the little-endian word at the program counter and moves past it.
    pub fn read_next_u16(&mut self) -> (r: u16)
        requires
            old(self).pc <= 0xFFFD,
        ensures
            r == old(self)@.imm16(),
            final(self)@ == old(self)@.advance(2),
    {
        proof { lemma_register_bits(); }
        let lo = self.bus.read_byte(self.pc);
        self.pc += 1;
        let hi = self.bus.read_byte(self.pc);
        self.pc += 1;
        (hi as u16) << 8 | (lo as u16)
    }

    /// Pushes a word: the high byte to SP - 1, the low byte to SP - 2.
    /// Returns the byte that the writes sent over the serial port, if any.
    pub fn push_u16(&mut self, value: u16) -> (serial: Option<u8>)
        requires
            old(self).sp >= 2,
        ensures
            final(self)@ == old(self)@.push(value).0,
            serial == old(self)@.push(value).1,
    {
        proof { lemma_register_bits(); lemma_alu_bits(); }
        let hi = (value >> 8) as u8;
        let lo = value as u8;
        self.sp -= 1;
        let out_hi = self.bus.write_byte(self.sp, hi);
        self.sp -= 1;
        let out_lo = self.bus.write_byte(self.sp, lo);
        match out_hi {
            Some(x) => Some(x),
            None => out_lo,
        }
    }

    /// Pops a word: the low byte from SP, the high byte from SP + 1.
    pub fn pop_u16(&mut self) -> (r: u16)
        ensures
            final(self)@ == old(self)@.pop().0,
            r == old(self)@.pop().1,
    {
        proof { lemma_register_bits(); }
        let lo_value = self.bus.read_byte(self.sp);
        self.sp = self.sp.wrapping_add(1);
        let hi_value = self.bus.read_byte(self.sp);
        self.sp = self.sp.wrapping_add(1);
        ((hi_value as u16) << 8) | (lo_value as u16)
    }

    /// Reads an 8-bit operand, moving past it when it follows the opcode.
    fn fetch_operand(&mut self, o: Operand) -> (v: u8)
        requires
            o is Imm ==> old(self).pc < 0xFFFF,
        ensures
            v == old(self)@.operand(o),
            final(self)@ == old(self)@.after_operand(o),
    {
        match o {
            Operand::Reg(x) => self.registers.get(x),
            Operand::AtHl => {
                let addr = self.registers.get_hl();
                self.bus.read_byte(addr)
            },
            Operand::Imm => self.fetch_byte(),
        }
    }

    /// Whether the branch condition holds.
    fn cond(&self, c: Cond) -> (b: bool)
        ensures
            b == cond_holds(self.registers, c),
    {
        match c {
            Cond::NotZero => !self.registers.get_zero_flag(),
            Cond::Zero => self.registers.get_zero_flag(),
            Cond::NotCarry => !self.registers.get_carry_flag(),
            Cond::Carry => self.registers.get_carry_flag(),
        }
    }

    /// Carries out an instruction of the 0xCB table given by its opcode.
    /// Returns the byte it sent over the serial port, if any.
    pub fn execute_cb_prefix(&mut self, cb_opcode: u8) -> (serial: Option<u8>)
        requires
            decode_cb_spec(cb_opcode) is Some,
        ensures
            final(self)@ == old(self)@.execute_cb(decode_cb_spec(cb_opcode)->Some_0).0,
            serial == old(self)@.execute_cb(decode_cb_spec(cb_opcode)->Some_0).1,
    {
        match decode_cb(cb_opcode) {
            Some(i) => self.execute_cb(i),
            None => None,
        }
    }

    /// Carries out an instruction of the 0xCB table.
    fn execute_cb(&mut self, instr: CbInstr) -> (serial: Option<u8>)
        ensures
            final(self)@ == old(self)@.execute_cb(instr).0,
            serial == old(self)@.execute_cb(instr).1,
    {
        let carry_in: u8 = if self.registers.get_carry_flag() { 0x80 } else { 0x00 };
        match instr {
            CbInstr::Rr(x) => {
                let v = self.registers.get(x);
                let res = (v >> 1) | carry_in;
                self.registers.set(x, res);
                self.registers.set_flags(res == 0, false, false, (v & 0x01) != 0);
                None
            },
            CbInstr::RrAtHl => {
                let addr = self.registers.get_hl();
                let v = self.bus.read_byte(addr);
                let res = (v >> 1) | carry_in;
                self.registers.set_flags(res == 0, false, false, (v & 0x01) != 0);
                None
            },
            CbInstr::Swap(x) => {
                let v = self.registers.get(x);
                let res = (v << 4) | (v >> 4);
                self.registers.set(x, res);
                self.registers.set_flags(res == 0, false, false, false);
                None
            },
            CbInstr::SwapAtHl => {
                let addr = self.registers.get_hl();
                let v = self.bus.read_byte(addr);
                let res = (v << 4) | (v >> 4);
                let out = self.bus.write_byte(addr, res);
                self.registers.set_flags(res == 0, false, false, false);
                out
            },
            CbInstr::Srl(x) => {
                let v = self.registers.get(x);
                let res = v >> 1;
                self.registers.set(x, res);
                self.registers.set_flags(res == 0, false, false, (v & 0x01) != 0);
                None
            },
            CbInstr::SrlAtHl => {
                let addr = self.registers.get_hl();
                let v = self.bus.read_byte(addr);
                let res = v >> 1;
                let out = self.bus.write_byte(addr, res);
                self.registers.set_flags(res == 0, false, false, (v & 0x01) != 0);
                out
            },
            CbInstr::Bit7H => {
                let is_clear = self.registers.h & 0b1000_0000 == 0;
                self.registers.set_zero_flag(is_clear);
                self.registers.set_subtract_flag(false);
                self.registers.set_half_carry_flag(true);
                None
            },
        }
    }

    /// Carries out the instruction at the program counter.
    pub fn step(&mut self) -> (out: StepOutcome)
        requires
            old(self)@.can_step(),
        ensures
            final(self)@ == old(self)@.step().0,
            out.serial == old(self)@.step().1,
            decode_spec(old(self)@.imm8()) == Some(out.instr),
            out.branch_not_taken == old(self)@.advance(1).branch_not_taken(out.instr),
    {
        let opcode = self.bus.read_byte(self.pc);
        self.pc += 1;
        match decode(opcode) {
            Some(instr) => {
                let branch_not_taken = match instr {
                    Instr::DropIf(Cond::NotZero) => !self.cond(Cond::NotZero),
                    Instr::CallIf(c) | Instr::JpIf(c) => !self.cond(c),
                    _ => false,
                };
                let serial = self.execute(instr);
                StepOutcome { instr, serial, branch_not_taken }
            },
            None => StepOutcome { instr: Instr::Nop, serial: None, branch_not_taken: false },
        }
    }

    /// Carries out the instruction at the program counter when it can be
    /// carried out; otherwise reports why, leaving the processor unchanged.
    pub fn try_step(&mut self) -> (r: Result<StepOutcome, StepError>)
        ensures
            old(self)@.step_error() is None <==> old(self)@.can_step(),
            match r {
                Ok(out) => {
                    &&& old(self)@.step_error() is None
                    &&& final(self)@ == old(self)@.step().0
                    &&& out.serial == old(self)@.step().1
                    &&& decode_spec(old(self)@.imm8()) == Some(out.instr)
                    &&& out.branch_not_taken == old(self)@.advance(1).branch_not_taken(out.instr)
                },
                Err(e) => {
                    &&& old(self)@.step_error() == Some(e)
                    &&& final(self)@ == old(self)@
                },
            },
    {
        if self.pc == 0xFFFF {
            return Err(StepError::ProgramCounterOverflow);
        }
        let opcode = self.bus.read_byte(self.pc);
        let instr = match decode(opcode) {
            Some(i) => i,
            None => {
                return Err(StepError::UnknownOpcode(opcode));
            },
        };
        let next_pc = self.pc + 1;
        if next_pc as u32 + operand_len_exec(instr) as u32 > 0xFFFF {
            return Err(StepError::ProgramCounterOverflow);
        }
        if let Instr::Prefix = instr {
            let cb_opcode = self.bus.read_byte(next_pc);
            if decode_cb(cb_opcode).is_none() {
                return Err(StepError::UnknownCbOpcode(cb_opcode));
            }
        }
        let pushes = match instr {
            Instr::Push(_) | Instr::PushAf | Instr::Call | Instr::Rst38 => true,
            Instr::CallIf(c) => self.cond(c),
            _ => false,
        };
        if pushes && self.sp < 2 {
            return Err(StepError::StackOverflow);
        }
        Ok(self.step())
    }

    /// Carries out an instruction of the main table, the program counter just
    /// past its opcode. Returns the byte it sent over the serial port, if any.
    pub fn execute(&mut self, instr: Instr) -> (serial: Option<u8>)
        requires
            old(self)@.can_execute(instr),
        ensures
            final(self)@ == old(self)@.execute(instr).0,
            serial == old(self)@.execute(instr).1,
    {
        match instr {
            Instr::Nop | Instr::Halt => self.execute_misc(instr),
            Instr::LoadPairImm(p) => self.execute_misc(instr),
            Instr::LoadSpImm => self.execute_misc(instr),
            Instr::LoadBcWithA => self.execute_misc(instr),
            Instr::IncPair(p) => self.execute_misc(instr),
            Instr::DecPair(p) => self.execute_misc(instr),
            Instr::IncSp => self.execute_misc(instr),
            Instr::DecSp => self.execute_misc(instr),
            Instr::Stop => self.execute_misc(instr),
            Instr::Di => self.execute_misc(instr),
            Instr::Ei => self.execute_misc(instr),
            Instr::Inc(x) => self.execute_load(instr),
            Instr::Dec(x) => self.execute_load(instr),
            Instr::LoadImm(x) => self.execute_load(instr),
            Instr::LoadImmNoAdvance(x) => self.execute_load(instr),
            Instr::Load(dst, src) => self.execute_load(instr),
            Instr::LoadFromHl(dst) => self.execute_load(instr),
            Instr::StoreAtHl(src) => self.execute_load(instr),
            Instr::StoreAAtDe => self.execute_load(instr),
            Instr::Rlca => self.execute_rotate(instr),
            Instr::Rrca => self.execute_rotate(instr),
            Instr::Rla => self.execute_rotate(instr),
            Instr::Rra => self.execute_rotate(instr),
            Instr::Cpl => self.execute_rotate(instr),
            Instr::Scf => self.execute_rotate(instr),
            Instr::Ccf => self.execute_rotate(instr),
            Instr::StoreAHlInc => self.execute_memory(instr),
            Instr::StoreAHlDec => self.execute_memory(instr),
            Instr::LoadAHlInc => self.execute_memory(instr),
            Instr::LoadAHlDec => self.execute_memory(instr),
            Instr::RewriteAtHl => self.execute_memory(instr),
            Instr::StoreHigh => self.execute_memory(instr),
            Instr::LoadHigh => self.execute_memory(instr),
            Instr::StoreAAbs => self.execute_memory(instr),
            Instr::Add(o) => self.execute_arith(instr),
            Instr::Sub(o) => self.execute_arith(instr),
            Instr::Cp(o) => self.execute_arith(instr),
            Instr::And(o) => self.execute_logic(instr),
            Instr::AndSelf(x) => self.execute_logic(instr),
            Instr::Xor(o) => self.execute_logic(instr),
            Instr::ClearA => self.execute_logic(instr),
            Instr::XorImm => self.execute_logic(instr),
            Instr::Or(o) => self.execute_logic(instr),
            Instr::OrSelf(x) => self.execute_logic(instr),
            Instr::DropIf(c) => self.execute_stack(instr),
            Instr::Pop(p) => self.execute_stack(instr),
            Instr::PopAf => self.execute_stack(instr),
            Instr::Push(p) => self.execute_stack(instr),
            Instr::PushAf => self.execute_stack(instr),
            Instr::Ret => self.execute_stack(instr),
            Instr::Rst38 => self.execute_stack(instr),
            Instr::Jr => self.execute_jump(instr),
            Instr::JrIf(c) => self.execute_jump(instr),
            Instr::Jp => self.execute_jump(instr),
            Instr::JpIf(c) => self.execute_jump(instr),
            Instr::Call => self.execute_jump(instr),
            Instr::CallIf(c) => self.execute_jump(instr),
            Instr::Prefix => self.execute_jump(instr),
        }
    }

    /// Loads of register pairs and SP, pair and SP increments, STOP and the interrupt switches.
    fn execute_misc(&mut self, instr: Instr) -> (serial: Option<u8>)
        requires
            old(self)@.can_execute(instr),
            ({
                ||| instr is Nop
                ||| instr is Halt
                ||| instr is LoadPairImm
                ||| instr is LoadSpImm
                ||| instr is LoadBcWithA
                ||| instr is IncPair
                ||| instr is DecPair
                ||| instr is IncSp
                ||| instr is DecSp
                ||| instr is Stop
                ||| instr is Di
                ||| instr is Ei
            }),
        ensures
            final(self)@ == old(self)@.execute(instr).0,
            serial == old(self)@.execute(instr).1,
    {
        proof { lemma_alu_bits(); lemma_register_bits(); }
        match instr {
            Instr::Nop | Instr::Halt => None,
            Instr::LoadPairImm(p) => {
                let v = self.read_next_u16();
                self.registers.set_pair(p, v);
                None
            },
            Instr::LoadSpImm => {
                self.sp = self.read_next_u16();
                None
            },
            Instr::LoadBcWithA => {
                let a = self.registers.a;
                self.registers.set_bc(a as u16);
                None
            },
            Instr::IncPair(p) => {
                let v = self.registers.get_pair(p);
                self.registers.set_pair(p, v.wrapping_add(1));
                None
            },
            Instr::DecPair(p) => {
                let v = self.registers.get_pair(p);
                self.registers.set_pair(p, v.wrapping_sub(1));
                None
            },
            Instr::IncSp => {
                self.sp = self.sp.wrapping_add(1);
                None
            },
            Instr::DecSp => {
                self.sp = self.sp.wrapping_sub(1);
                None
            },
            Instr::Stop => {
                let _ = self.fetch_byte();
                None
            },
            Instr::Di => {
                self.ime = false;
                None
            },
            Instr::Ei => {
                self.ime = true;
                None
            },
            _ => None,
        }
    }

    /// 8-bit increments, decrements, loads and stores through registers.
    fn execute_load(&mut self, instr: Instr) -> (serial: Option<u8>)
        requires
            old(self)@.can_execute(instr),
            ({
                ||| instr is Inc
                ||| instr is Dec
                ||| instr is LoadImm
                ||| instr is LoadImmNoAdvance
                ||| instr is Load
                ||| instr is LoadFromHl
                ||| instr is StoreAtHl
                ||| instr is StoreAAtDe
            }),
        ensures
            final(self)@ == old(self)@.execute(instr).0,
            serial == old(self)@.execute(instr).1,
    {
        proof { lemma_alu_bits(); lemma_register_bits(); }
        match instr {
            Instr::Inc(x) => {
                let v = self.registers.get(x);
                let hc = (v & 0x0F) == 0x0F;
                let res = v.wrapping_add(1);
                self.registers.set(x, res);
                self.registers.set_zero_flag(res == 0);
                self.registers.set_subtract_flag(false);
                self.registers.set_half_carry_flag(hc);
                None
            },
            Instr::Dec(x) => {
                let v = self.registers.get(x);
                let hc = (v & 0x0F) == 0x0F;
                let res = v.wrapping_sub(1);
                self.registers.set(x, res);
                self.registers.set_zero_flag(res == 0);
                self.registers.set_subtract_flag(true);
                self.registers.set_half_carry_flag(hc);
                None
            },
            Instr::LoadImm(x) => {
                let v = self.fetch_byte();
                self.registers.set(x, v);
                None
            },
            Instr::LoadImmNoAdvance(x) => {
                let v = self.bus.read_byte(self.pc);
                self.registers.set(x, v);
                None
            },
            Instr::Load(dst, src) => {
                let v = self.registers.get(src);
                self.registers.set(dst, v);
                None
            },
            Instr::LoadFromHl(dst) => {
                let addr = self.registers.get_hl();
                let v = self.bus.read_byte(addr);
                self.registers.set(dst, v);
                None
            },
            Instr::StoreAtHl(src) => {
                let addr = self.registers.get_hl();
                let v = self.registers.get(src);
                self.bus.write_byte(addr, v)
            },
            Instr::StoreAAtDe => {
                let addr = self.registers.get_de();
                self.bus.write_byte(addr, self.registers.a)
            },
            _ => None,
        }
    }

    /// Rotations of A and the flag instructions CPL, SCF and CCF.
    fn execute_rotate(&mut self, instr: Instr) -> (serial: Option<u8>)
        requires
            old(self)@.can_execute(instr),
            ({
                ||| instr is Rlca
                ||| instr is Rrca
                ||| instr is Rla
                ||| instr is Rra
                ||| instr is Cpl
                ||| instr is Scf
                ||| instr is Ccf
            }),
        ensures
            final(self)@ == old(self)@.execute(instr).0,
            serial == old(self)@.execute(instr).1,
    {
        proof { lemma_alu_bits(); lemma_register_bits(); }
        match instr {
            Instr::Rlca => {
                let a = self.registers.a;
                let out_bit = a >> 7;
                self.registers.a = (a << 1) | out_bit;
                self.registers.set_flags(false, false, false, out_bit != 0);
                None
            },
            Instr::Rrca => {
                let a = self.registers.a;
                let out_bit = a << 7;
                self.registers.a = (a >> 1) | out_bit;
                self.registers.set_flags(false, false, false, out_bit != 0);
                None
            },
            Instr::Rla => {
                let a = self.registers.a;
                let carry_in: u8 = if self.registers.get_carry_flag() { 0x80 } else { 0x00 };
                let carry_out = (a & 0x01) != 0;
                self.registers.a = (a << 1) | carry_in;
                self.registers.set_flags(false, false, false, carry_out);
                None
            },
            Instr::Rra => {
                let a = self.registers.a;
                let carry_in: u8 = if self.registers.get_carry_flag() { 0x80 } else { 0x00 };
                let carry_out = (a & 0x01) != 0;
                self.registers.a = (a >> 1) | carry_in;
                self.registers.set_flags(false, false, false, carry_out);
                None
            },
            Instr::Cpl => {
                self.registers.a = !self.registers.a;
                self.registers.set_subtract_flag(true);
                self.registers.set_half_carry_flag(true);
                None
            },
            Instr::Scf => {
                self.registers.set_subtract_flag(false);
                self.registers.set_half_carry_flag(false);
                self.registers.set_carry_flag(true);
                None
            },
            Instr::Ccf => {
                let carry = self.registers.get_carry_flag();
                self.registers.set_subtract_flag(false);
                self.registers.set_half_carry_flag(false);
                self.registers.set_carry_flag(!carry);
                None
            },
            _ => None,
        }
    }

    /// Loads and stores through HL, the high page and an absolute address.
    fn execute_memory(&mut self, instr: Instr) -> (serial: Option<u8>)
        requires
            old(self)@.can_execute(instr),
            ({
                ||| instr is StoreAHlInc
                ||| instr is StoreAHlDec
                ||| instr is LoadAHlInc
                ||| instr is LoadAHlDec
                ||| instr is RewriteAtHl
                ||| instr is StoreHigh
                ||| instr is LoadHigh
                ||| instr is StoreAAbs
            }),
        ensures
            final(self)@ == old(self)@.execute(instr).0,
            serial == old(self)@.execute(instr).1,
    {
        proof { lemma_alu_bits(); lemma_register_bits(); }
        match instr {
            Instr::StoreAHlInc => {
                let addr = self.registers.get_hl();
                let out = self.bus.write_byte(addr, self.registers.a);
                self.registers.set_hl(addr.wrapping_add(1));
                out
            },
            Instr::StoreAHlDec => {
                let addr = self.registers.get_hl();
                let out = self.bus.write_byte(addr, self.registers.a);
                self.registers.set_hl(addr.wrapping_sub(1));
                out
            },
            Instr::LoadAHlInc => {
                let addr = self.registers.get_hl();
                self.registers.a = self.bus.read_byte(addr);
                self.registers.set_hl(addr.wrapping_add(1));
                None
            },
            Instr::LoadAHlDec => {
                let addr = self.registers.get_hl();
                self.registers.a = self.bus.read_byte(addr);
                self.registers.set_hl(addr.wrapping_sub(1));
                None
            },
            Instr::RewriteAtHl => {
                let addr = self.registers.get_hl();
                let v = self.bus.read_byte(addr);
                self.pc += 1;
                self.bus.write_byte(addr, v)
            },
            Instr::StoreHigh => {
                let offset = self.fetch_byte();
                let addr = 0xFF00 | (offset as u16);
                self.bus.write_byte(addr, self.registers.a)
            },
            Instr::LoadHigh => {
                let offset = self.fetch_byte();
                let addr = 0xFF00 | (offset as u16);
                self.registers.a = self.bus.read_byte(addr);
                None
            },
            Instr::StoreAAbs => {
                let addr = self.read_next_u16();
                let out = self.bus.write_byte(addr, self.registers.a);
                self.pc += 1;
                out
            },
            _ => None,
        }
    }

    /// Addition, subtraction and comparison.
    fn execute_arith(&mut self, instr: Instr) -> (serial: Option<u8>)
        requires
            old(self)@.can_execute(instr),
            ({
                ||| instr is Add
                ||| instr is Sub
                ||| instr is Cp
            }),
        ensures
            final(self)@ == old(self)@.execute(instr).0,
            serial == old(self)@.execute(instr).1,
    {
        proof { lemma_alu_bits(); lemma_register_bits(); }
        match instr {
            Instr::Add(o) => {
                let v = self.fetch_operand(o);
                let a = self.registers.a;
                let sum = (a as u16) + (v as u16);
                self.registers.a = sum as u8;
                let res = self.registers.a;
                self.registers.set_flags(res == 0, false, (a & 0x0F) + (v & 0x0F) > 0x0F, sum > 0xFF);
                None
            },
            Instr::Sub(o) => {
                let v = self.fetch_operand(o);
                let a = self.registers.a;
                self.registers.a = a.wrapping_sub(v);
                let res = self.registers.a;
                self.registers.set_flags(res == 0, true, (a & 0x0F) < (v & 0x0F), a < v);
                None
            },
            Instr::Cp(o) => {
                let v = self.fetch_operand(o);
                let a = self.registers.a;
                self.registers.set_flags(v == a, true, (a & 0x0F) < (v & 0x0F), a < v);
                None
            },
            _ => None,
        }
    }

    /// The bitwise instructions.
    fn execute_logic(&mut self, instr: Instr) -> (serial: Option<u8>)
        requires
            old(self)@.can_execute(instr),
            ({
                ||| instr is And
                ||| instr is AndSelf
                ||| instr is Xor
                ||| instr is ClearA
                ||| instr is XorImm
                ||| instr is Or
                ||| instr is OrSelf
            }),
        ensures
            final(self)@ == old(self)@.execute(instr).0,
            serial == old(self)@.execute(instr).1,
    {
        proof { lemma_alu_bits(); lemma_register_bits(); }
        match instr {
            Instr::And(o) => {
                let v = self.fetch_operand(o);
                let res = self.registers.a & v;
                self.registers.a = res;
                self.registers.set_flags(res == 0, false, true, false);
                None
            },
            Instr::AndSelf(x) => {
                let v = self.registers.get(x);
                self.registers.set(x, v & v);
                self.registers.set_flags(v & v == 0, false, true, false);
                None
            },
            Instr::Xor(o) => {
                let v = self.fetch_operand(o);
                self.registers.a ^= v;
                let res = self.registers.a;
                self.registers.set_flags(res == 0, false, false, false);
                None
            },
            Instr::ClearA => {
                self.registers.a ^= self.registers.a;
                let res = self.registers.a;
                self.registers.set_zero_flag(res == 0);
                self.registers.f = 0b1000_0000;
                None
            },
            Instr::XorImm => {
                let v = self.fetch_byte();
                self.registers.a ^= v;
                self.registers.set_zero_flag(v == 0);
                None
            },
            Instr::Or(o) => {
                let v = self.fetch_operand(o);
                self.registers.a |= v;
                let res = self.registers.a;
                self.registers.set_flags(res == 0, false, false, false);
                None
            },
            Instr::OrSelf(x) => {
                let v = self.registers.get(x);
                self.registers.set(x, v | v);
                self.registers.set_flags(v | v == 0, false, false, false);
                None
            },
            _ => None,
        }
    }

    /// Stack instructions.
    fn execute_stack(&mut self, instr: Instr) -> (serial: Option<u8>)
        requires
            old(self)@.can_execute(instr),
            ({
                ||| instr is DropIf
                ||| instr is Pop
                ||| instr is PopAf
                ||| instr is Push
                ||| instr is PushAf
                ||| instr is Ret
                ||| instr is Rst38
            }),
        ensures
            final(self)@ == old(self)@.execute(instr).0,
            serial == old(self)@.execute(instr).1,
    {
        proof { lemma_alu_bits(); lemma_register_bits(); }
        match instr {
            Instr::DropIf(c) => {
                if self.cond(c) {
                    let _ = self.pop_u16();
                }
                None
            },
            Instr::Pop(p) => {
                let v = self.pop_u16();
                self.registers.set_pair(p, v);
                None
            },
            Instr::PopAf => {
                let af = self.pop_u16();
                self.registers.set_af(af & 0xFFF0);
                let f0 = self.registers.f;
                self.registers.set_zero_flag(f0 == 0);
                let f1 = self.registers.f;
                self.registers.set_subtract_flag(f1 & 0x08 == 0x08);
                let f2 = self.registers.f;
                self.registers.set_half_carry_flag(f2 & 0x10 == 0x10);
                let f3 = self.registers.f;
                self.registers.set_carry_flag(f3 & 0x20 == 0x20);
                None
            },
            Instr::Push(p) => {
                let v = self.registers.get_pair(p);
                self.push_u16(v)
            },
            Instr::PushAf => {
                let a = self.registers.a as u16;
                let f = (self.registers.f & 0b1111_0000) as u16;
                let af = (a << 8) | f;
                self.push_u16(af)
            },
            Instr::Ret => {
                self.pc = self.pop_u16();
                None
            },
            Instr::Rst38 => {
                let out = self.push_u16(self.pc);
                self.pc = 0x0038;
                out
            },
            _ => None,
        }
    }

    /// Jumps, calls and the 0xCB prefix.
    fn execute_jump(&mut self, instr: Instr) -> (serial: Option<u8>)
        requires
            old(self)@.can_execute(instr),
            ({
                ||| instr is Jr
                ||| instr is JrIf
                ||| instr is Jp
                ||| instr is JpIf
                ||| instr is Call
                ||| instr is CallIf
                ||| instr is Prefix
            }),
        ensures
            final(self)@ == old(self)@.execute(instr).0,
            serial == old(self)@.execute(instr).1,
    {
        proof { lemma_alu_bits(); lemma_register_bits(); }
        match instr {
            Instr::Jr => {
                let offset_byte = self.fetch_byte();
                let offset = offset_byte as i8;
                self.pc = self.pc.wrapping_add_signed(offset as i16);
                None
            },
            Instr::JrIf(c) => {
                let offset_byte = self.fetch_byte();
                let offset = offset_byte as i8;
                if self.cond(c) {
                    self.pc = self.pc.wrapping_add_signed(offset as i16);
                }
                None
            },
            Instr::Jp => {
                self.pc = self.read_next_u16();
                None
            },
            Instr::JpIf(c) => {
                let target = self.read_next_u16();
                if self.cond(c) {
                    self.pc = target;
                }
                None
            },
            Instr::Call => {
                let target = self.read_next_u16();
                let out = self.push_u16(self.pc);
                self.pc = target;
                out
            },
            Instr::CallIf(c) => {
                let target = self.read_next_u16();
                if self.cond(c) {
                    let out = self.push_u16(self.pc);
                    self.pc = target;
                    out
                } else {
                    None
                }
            },
            Instr::Prefix => {
                let cb_opcode = self.fetch_byte();
                self.execute_cb_prefix(cb_opcode)
            },
            _ => None,
        }
    }
}

/// A word pushed onto the stack in writable memory is the word popped next,
/// and the pop puts the stack pointer back where it was.
pub proof fn lemma_push_then_pop(s: CpuView, value: u16)
    requires
        s.bus.wf(),
        s.sp >= 2,
        is_writable((s.sp - 1) as u16),
        is_writable((s.sp - 2) as u16),
    ensures
        s.push(value).0.pop().1 == value,
        s.push(value).0.pop().0.sp == s.sp,
        s.push(value).0.pop().0.registers == s.registers,
        s.push(value).0.pop().0.pc == s.pc,
{
    let lo_addr = (s.sp - 2) as u16;
    let hi_addr = (s.sp - 1) as u16;
    let bus1 = s.bus.write(hi_addr, high_byte(value));
    let bus2 = bus1.write(lo_addr, low_byte(value));
    crate::bus::lemma_read_after_write(s.bus, hi_addr, high_byte(value));
    crate::bus::lemma_read_after_write(bus1, lo_addr, low_byte(value));
    crate::bus::lemma_write_other_address(bus1, lo_addr, hi_addr, low_byte(value));
    assert(bus2.read(lo_addr) == low_byte(value));
    assert(bus2.read(hi_addr) == high_byte(value));
    crate::registers::lemma_pair_write_read(value);
}

/// A write to memory keeps the ROM and the sizes of the memories.
proof fn lemma_write_keeps_rom(s: CpuView, addr: u16, value: u8)
    requires
        s.bus.wf(),
    ensures
        s.write(addr, value).0.bus.rom == s.bus.rom,
        s.write(addr, value).0.bus.wf(),
        s.push(addr).0.bus.rom == s.bus.rom,
        s.push(addr).0.bus.wf(),
{
}

proof fn lemma_execute_cb_keeps_rom(s: CpuView, i: CbInstr)
    requires
        s.bus.wf(),
    ensures
        s.execute_cb(i).0.bus.rom == s.bus.rom,
        s.execute_cb(i).0.bus.wf(),
{
    lemma_write_keeps_rom(s, s.registers.hl(), ((s.bus.read(s.registers.hl()) << 4u8) | (s.bus.read(s.registers.hl()) >> 4u8)));
    lemma_write_keeps_rom(s, s.registers.hl(), s.bus.read(s.registers.hl()) >> 1u8);
}

proof fn lemma_execute_keeps_rom(s: CpuView, i: Instr)
    requires
        s.bus.wf(),
    ensures
        s.execute(i).0.bus.rom == s.bus.rom,
        s.execute(i).0.bus.wf(),
{
    let r = s.registers;
    match i {
        Instr::Prefix => {
            let next = s.advance(1);
            if let Some(ci) = decode_cb_spec(s.imm8()) {
                lemma_execute_cb_keeps_rom(next, ci);
            }
        },
        Instr::StoreAAtDe => lemma_write_keeps_rom(s, r.de(), r.a),
        Instr::StoreAtHl(x) => lemma_write_keeps_rom(s, r.hl(), r.reg(x)),
        Instr::StoreAHlInc | Instr::StoreAHlDec => lemma_write_keeps_rom(s, r.hl(), r.a),
        Instr::RewriteAtHl => lemma_write_keeps_rom(s.advance(1), r.hl(), s.bus.read(r.hl())),
        Instr::StoreHigh => lemma_write_keeps_rom(s.advance(1), (0xFF00 + s.imm8()) as u16, r.a),
        Instr::StoreAAbs => lemma_write_keeps_rom(s.advance(3), s.imm16(), r.a),
        Instr::Push(p) => lemma_write_keeps_rom(s, r.pair(p), 0),
        Instr::PushAf => lemma_write_keeps_rom(s, word(r.a, r.f & 0xF0u8), 0),
        Instr::Call | Instr::CallIf(_) => lemma_write_keeps_rom(s.advance(2), s.advance(2).pc, 0),
        Instr::Rst38 => lemma_write_keeps_rom(s, s.pc, 0),
        _ => {},
    }
}

/// No instruction changes the ROM or the sizes of the memories.
pub proof fn lemma_step_keeps_rom(s: CpuView)
    requires
        s.bus.wf(),
    ensures
        s.step().0.bus.rom == s.bus.rom,
        s.step().0.bus.wf(),
{
    if let Some(i) = decode_spec(s.imm8()) {
        lemma_execute_keeps_rom(s.advance(1), i);
    }
}

/// Whether the four low bits of F, which hold no flag, are clear.
pub open spec fn low_flag_bits_clear(f: u8) -> bool {
    f & 0x0Fu8 == 0
}

proof fn lemma_low_nibble_bits(f: u8, i: u8, v: bool, w: u16)
    requires
        4 <= i < 8,
    ensures
        crate::registers::with_bit(f, i, v) & 0x0Fu8 == f & 0x0Fu8,
        low_byte(w & 0xFFF0u16) & 0x0Fu8 == 0,
        0x80u8 & 0x0Fu8 == 0,
{
    assert(4 <= i < 8 ==> (f | (1u8 << i)) & 0x0Fu8 == f & 0x0Fu8) by (bit_vector);
    assert(4 <= i < 8 ==> (f & !(1u8 << i)) & 0x0Fu8 == f & 0x0Fu8) by (bit_vector);
    assert((((w & 0xFFF0u16) % 256) as u8) & 0x0Fu8 == 0 && 0x80u8 & 0x0Fu8 == 0) by (bit_vector);
}

proof fn lemma_flag_updates_keep_low_bits()
    ensures
        forall|f: u8, i: u8, v: bool|
            4 <= i < 8 ==> #[trigger] crate::registers::with_bit(f, i, v) & 0x0Fu8 == f & 0x0Fu8,
        forall|w: u16| #[trigger] low_byte(w & 0xFFF0u16) & 0x0Fu8 == 0,
        0x80u8 & 0x0Fu8 == 0,
{
    assert forall|f: u8, i: u8, v: bool|
        4 <= i < 8 implies #[trigger] crate::registers::with_bit(f, i, v) & 0x0Fu8 == f & 0x0Fu8 by {
        lemma_low_nibble_bits(f, i, v, 0);
    }
    assert forall|w: u16| #[trigger] low_byte(w & 0xFFF0u16) & 0x0Fu8 == 0 by {
        lemma_low_nibble_bits(0, 4, true, w);
    }
    lemma_low_nibble_bits(0, 4, true, 0);
}

/// No instruction of the 0xCB table sets the four low bits of F.
proof fn lemma_execute_cb_keeps_low_flag_bits(s: CpuView, i: CbInstr)
    requires
        low_flag_bits_clear(s.registers.f),
    ensures
        low_flag_bits_clear(s.execute_cb(i).0.registers.f),
{
    lemma_flag_updates_keep_low_bits();
}

/// No instruction sets the four low bits of F.
#[verifier::rlimit(60)]
proof fn lemma_execute_keeps_low_flag_bits(s: CpuView, i: Instr)
    requires
        low_flag_bits_clear(s.registers.f),
    ensures
        low_flag_bits_clear(s.execute(i).0.registers.f),
{
    lemma_flag_updates_keep_low_bits();
    if i is Prefix {
        if let Some(ci) = decode_cb_spec(s.imm8()) {
            lemma_execute_cb_keeps_low_flag_bits(s.advance(1), ci);
        }
    }
}

/// The four low bits of F, which hold no flag, stay clear from one
/// instruction to the next.
pub proof fn lemma_step_keeps_low_flag_bits(s: CpuView)
    requires
        low_flag_bits_clear(s.registers.f),
    ensures
        low_flag_bits_clear(s.step().0.registers.f),
{
    if let Some(i) = decode_spec(s.imm8()) {
        lemma_execute_keeps_low_flag_bits(s.advance(1), i);
    }
}

} // verus!
