//! What the instructions do, stated over the opcode bytes in memory, the
//! registers and the flag bits of F before and after one step.
use vstd::prelude::*;
use crate::cpu::CpuView;
use crate::registers::{Registers, bit_of, with_bit, lemma_with_bit};
use crate::bus::is_writable;
use crate::instr::{Instr, Operand};

verus! {

/// The 8-bit register that a 3-bit register code names in the instruction
/// encoding: 0 B, 1 C, 2 D, 3 E, 4 H, 5 L, 7 A (6 names memory at HL).
pub open spec fn reg_code(r: Registers, code: int) -> u8 {
    if code == 0 {
        r.b
    } else if code == 1 {
        r.c
    } else if code == 2 {
        r.d
    } else if code == 3 {
        r.e
    } else if code == 4 {
        r.h
    } else if code == 5 {
        r.l
    } else {
        r.a
    }
}

/// The opcode at the program counter.
pub open spec fn opcode(s: CpuView) -> u8 {
    s.bus.read(s.pc)
}

/// The byte `k` places after the opcode.
pub open spec fn operand_byte(s: CpuView, k: int) -> u8 {
    s.bus.read((s.pc + k) as u16)
}

/// Bit 7 of F (zero).
pub open spec fn z_flag(f: u8) -> bool {
    bit_of(f, 7)
}

/// Bit 6 of F (subtract).
pub open spec fn n_flag(f: u8) -> bool {
    bit_of(f, 6)
}

/// Bit 5 of F (half carry).
pub open spec fn h_flag(f: u8) -> bool {
    bit_of(f, 5)
}

/// Bit 4 of F (carry).
pub open spec fn c_flag(f: u8) -> bool {
    bit_of(f, 4)
}

proof fn lemma_four_flags(f: u8, z: bool, n: bool, h: bool, c: bool)
    ensures
        z_flag(Registers::flags_znhc(f, z, n, h, c)) == z,
        n_flag(Registers::flags_znhc(f, z, n, h, c)) == n,
        h_flag(Registers::flags_znhc(f, z, n, h, c)) == h,
        c_flag(Registers::flags_znhc(f, z, n, h, c)) == c,
        z_flag(Registers::flags_znh(f, z, n, h)) == z,
        n_flag(Registers::flags_znh(f, z, n, h)) == n,
        h_flag(Registers::flags_znh(f, z, n, h)) == h,
        c_flag(Registers::flags_znh(f, z, n, h)) == c_flag(f),
{
    let f1 = with_bit(f, 7, z);
    let f2 = with_bit(f1, 6, n);
    let f3 = with_bit(f2, 5, h);
    let f4 = with_bit(f3, 4, c);
    lemma_with_bit(f, 7, 7, z);
    lemma_with_bit(f, 7, 4, z);
    lemma_with_bit(f1, 6, 7, n);
    lemma_with_bit(f1, 6, 6, n);
    lemma_with_bit(f1, 6, 4, n);
    lemma_with_bit(f2, 5, 7, h);
    lemma_with_bit(f2, 5, 6, h);
    lemma_with_bit(f2, 5, 5, h);
    lemma_with_bit(f2, 5, 4, h);
    lemma_with_bit(f3, 4, 7, c);
    lemma_with_bit(f3, 4, 6, c);
    lemma_with_bit(f3, 4, 5, c);
    lemma_with_bit(f3, 4, 4, c);
}

/// CP (0xB8-0xBF except 0xBE, and 0xFE with an immediate byte) compares A
/// with its operand v: A is unchanged, Z is set exactly when A equals v, N is
/// set, and C is set exactly when A is less than v (the borrow of A - v).
pub proof fn lemma_compare(s: CpuView)
    requires
        s.can_step(),
        (0xB8 <= opcode(s) <= 0xBF && opcode(s) != 0xBE) || opcode(s) == 0xFE,
    ensures
        ({
            let v = if opcode(s) == 0xFE { operand_byte(s, 1) } else { reg_code(s.registers, opcode(s) - 0xB8) };
            let t = s.step().0;
            &&& t.registers.a == s.registers.a
            &&& z_flag(t.registers.f) == (s.registers.a == v)
            &&& n_flag(t.registers.f)
            &&& h_flag(t.registers.f) == (s.registers.a % 16 < v % 16)
            &&& c_flag(t.registers.f) == (s.registers.a < v)
            &&& t.pc == s.pc + if opcode(s) == 0xFE { 2int } else { 1int }
            &&& t.bus == s.bus
        }),
{
    let v = if opcode(s) == 0xFE { operand_byte(s, 1) } else { reg_code(s.registers, opcode(s) - 0xB8) };
    let a = s.registers.a;
    lemma_four_flags(s.registers.f, v == a, true, a % 16 < v % 16, a < v);
}

proof fn lemma_shift_bits_0()
    by (bit_vector)
    ensures
        forall|x: u8| #[trigger] ((x << 1u8) | (x >> 7u8)) == (((x as u16) * 2) % 256 + (x as u16) / 128) as u8,
{
}

proof fn lemma_shift_bits_1()
    by (bit_vector)
    ensures
        forall|x: u8| #[trigger] ((x >> 1u8) | (x << 7u8)) == ((x as u16) / 2 + ((x as u16) % 2) * 128) as u8,
{
}

proof fn lemma_shift_bits_2()
    by (bit_vector)
    ensures
        forall|x: u8| (#[trigger] (x >> 7u8) != 0u8) == (x >= 128u8),
{
}

proof fn lemma_shift_bits_3()
    by (bit_vector)
    ensures
        forall|x: u8| (#[trigger] (x << 7u8) != 0u8) == (x % 2u8 == 1u8),
{
}

proof fn lemma_shift_bits_4()
    by (bit_vector)
    ensures
        forall|x: u8| #[trigger] ((x >> 1u8) | 0x80u8) == ((x as u16) / 2 + 128) as u8,
{
}

proof fn lemma_shift_bits_5()
    by (bit_vector)
    ensures
        forall|x: u8| #[trigger] ((x >> 1u8) | 0x00u8) == x / 2u8,
{
}

proof fn lemma_shift_bits_6()
    by (bit_vector)
    ensures
        forall|x: u8| #[trigger] (x >> 1u8) == x / 2u8,
{
}

proof fn lemma_shift_bits_7()
    by (bit_vector)
    ensures
        forall|x: u8| #[trigger] ((x << 1u8) | 0x80u8) == (((x as u16) % 64) * 2 + 128) as u8,
{
}

proof fn lemma_shift_bits_8()
    by (bit_vector)
    ensures
        forall|x: u8| #[trigger] ((x << 1u8) | 0x00u8) == (((x as u16) % 128) * 2) as u8,
{
}

proof fn lemma_shift_bits_9()
    by (bit_vector)
    ensures
        forall|x: u8| (#[trigger] (x & 1u8) != 0u8) == (x % 2u8 == 1u8),
{
}

proof fn lemma_shift_bits_10()
    by (bit_vector)
    ensures
        forall|x: u8| #[trigger] ((x << 4u8) | (x >> 4u8)) == (((x as u16) % 16) * 16 + (x as u16) / 16) as u8,
{
}

proof fn lemma_shift_bits()
    ensures
        forall|x: u8| #[trigger] ((x << 1u8) | (x >> 7u8)) == (((x as u16) * 2) % 256 + (x as u16) / 128) as u8,
        forall|x: u8| #[trigger] ((x >> 1u8) | (x << 7u8)) == ((x as u16) / 2 + ((x as u16) % 2) * 128) as u8,
        forall|x: u8| (#[trigger] (x >> 7u8) != 0u8) == (x >= 128u8),
        forall|x: u8| (#[trigger] (x << 7u8) != 0u8) == (x % 2u8 == 1u8),
        forall|x: u8| #[trigger] ((x >> 1u8) | 0x80u8) == ((x as u16) / 2 + 128) as u8,
        forall|x: u8| #[trigger] ((x >> 1u8) | 0x00u8) == x / 2u8,
        forall|x: u8| #[trigger] (x >> 1u8) == x / 2u8,
        forall|x: u8| #[trigger] ((x << 1u8) | 0x80u8) == (((x as u16) % 64) * 2 + 128) as u8,
        forall|x: u8| #[trigger] ((x << 1u8) | 0x00u8) == (((x as u16) % 128) * 2) as u8,
        forall|x: u8| (#[trigger] (x & 1u8) != 0u8) == (x % 2u8 == 1u8),
        forall|x: u8| #[trigger] ((x << 4u8) | (x >> 4u8)) == (((x as u16) % 16) * 16 + (x as u16) / 16) as u8,
{
    lemma_shift_bits_0();
    lemma_shift_bits_1();
    lemma_shift_bits_2();
    lemma_shift_bits_3();
    lemma_shift_bits_4();
    lemma_shift_bits_5();
    lemma_shift_bits_6();
    lemma_shift_bits_7();
    lemma_shift_bits_8();
    lemma_shift_bits_9();
    lemma_shift_bits_10();
}

/// RLCA (0x07) rotates A left: bit 7 goes to bit 0 and to C; Z, N and H are cleared.
pub proof fn lemma_rotate_left(s: CpuView)
    requires
        s.can_step(),
        opcode(s) == 0x07,
    ensures
        ({
            let a = s.registers.a;
            let t = s.step().0;
            &&& t.registers.a == (a * 2) % 256 + a / 128
            &&& c_flag(t.registers.f) == (a >= 128)
            &&& !z_flag(t.registers.f) && !n_flag(t.registers.f) && !h_flag(t.registers.f)
            &&& t.pc == s.pc + 1
        }),
{
    lemma_shift_bits();
    let a = s.registers.a;
    lemma_four_flags(s.registers.f, false, false, false, a >> 7u8 != 0);
}

/// RRCA (0x0F) rotates A right: bit 0 goes to bit 7 and to C; Z, N and H are cleared.
pub proof fn lemma_rotate_right(s: CpuView)
    requires
        s.can_step(),
        opcode(s) == 0x0F,
    ensures
        ({
            let a = s.registers.a;
            let t = s.step().0;
            &&& t.registers.a == a / 2 + (a % 2) * 128
            &&& c_flag(t.registers.f) == (a % 2 == 1)
            &&& !z_flag(t.registers.f) && !n_flag(t.registers.f) && !h_flag(t.registers.f)
        }),
{
    lemma_shift_bits();
    let a = s.registers.a;
    lemma_four_flags(s.registers.f, false, false, false, a << 7u8 != 0);
}

/// RLA (0x17) shifts A left, sets bit 7 when C was set, and puts the old bit 0 in C.
pub proof fn lemma_rotate_left_through_carry(s: CpuView)
    requires
        s.can_step(),
        opcode(s) == 0x17,
    ensures
        ({
            let a = s.registers.a;
            let t = s.step().0;
            &&& t.registers.a == if c_flag(s.registers.f) { (a % 64) * 2 + 128 } else { (a % 128) * 2 }
            &&& c_flag(t.registers.f) == (a % 2 == 1)
            &&& !z_flag(t.registers.f) && !n_flag(t.registers.f) && !h_flag(t.registers.f)
        }),
{
    lemma_shift_bits();
    let a = s.registers.a;
    lemma_four_flags(s.registers.f, false, false, false, a & 1 != 0);
}

/// RRA (0x1F) rotates A right through C: old C goes to bit 7, old bit 0 to C.
pub proof fn lemma_rotate_right_through_carry(s: CpuView)
    requires
        s.can_step(),
        opcode(s) == 0x1F,
    ensures
        ({
            let a = s.registers.a;
            let t = s.step().0;
            &&& t.registers.a == a / 2 + if c_flag(s.registers.f) { 128int } else { 0int }
            &&& c_flag(t.registers.f) == (a % 2 == 1)
            &&& !z_flag(t.registers.f) && !n_flag(t.registers.f) && !h_flag(t.registers.f)
        }),
{
    lemma_shift_bits();
    let a = s.registers.a;
    lemma_four_flags(s.registers.f, false, false, false, a & 1 != 0);
}

/// CB 0x18-0x1F (register forms): RR r rotates r right through C, Z tells whether the result is zero.
pub proof fn lemma_cb_rotate_right(s: CpuView)
    requires
        s.can_step(),
        opcode(s) == 0xCB,
        0x18 <= operand_byte(s, 1) <= 0x1F,
        operand_byte(s, 1) != 0x1E,
    ensures
        ({
            let code = operand_byte(s, 1) - 0x18;
            let x = reg_code(s.registers, code);
            let res = reg_code(s.step().0.registers, code);
            let f = s.step().0.registers.f;
            &&& res == x / 2 + if c_flag(s.registers.f) { 128int } else { 0int }
            &&& c_flag(f) == (x % 2 == 1)
            &&& z_flag(f) == (res == 0)
            &&& !n_flag(f) && !h_flag(f)
            &&& s.step().0.pc == s.pc + 2
        }),
{
    lemma_shift_bits();
    let cb = operand_byte(s, 1);
    let x = reg_code(s.registers, cb - 0x18);
    let res = ((x >> 1u8) | if c_flag(s.registers.f) { 0x80u8 } else { 0x00u8 });
    lemma_four_flags(s.registers.f, res == 0, false, false, x & 1 != 0);
}

/// CB 0x30-0x37 (register forms): SWAP r exchanges the nibbles of r; only Z can be set.
pub proof fn lemma_cb_swap(s: CpuView)
    requires
        s.can_step(),
        opcode(s) == 0xCB,
        0x30 <= operand_byte(s, 1) <= 0x37,
        operand_byte(s, 1) != 0x36,
    ensures
        ({
            let code = operand_byte(s, 1) - 0x30;
            let x = reg_code(s.registers, code);
            let res = reg_code(s.step().0.registers, code);
            let f = s.step().0.registers.f;
            &&& res == (x % 16) * 16 + x / 16
            &&& z_flag(f) == (res == 0)
            &&& !c_flag(f) && !n_flag(f) && !h_flag(f)
        }),
{
    lemma_shift_bits();
    let cb = operand_byte(s, 1);
    let x = reg_code(s.registers, cb - 0x30);
    let res = (x << 4u8) | (x >> 4u8);
    lemma_four_flags(s.registers.f, res == 0, false, false, false);
}

/// CB 0x38-0x3F (register forms): SRL r halves r and puts its old bit 0 in C.
pub proof fn lemma_cb_shift_right(s: CpuView)
    requires
        s.can_step(),
        opcode(s) == 0xCB,
        0x38 <= operand_byte(s, 1) <= 0x3F,
        operand_byte(s, 1) != 0x3E,
    ensures
        ({
            let code = operand_byte(s, 1) - 0x38;
            let x = reg_code(s.registers, code);
            let res = reg_code(s.step().0.registers, code);
            let f = s.step().0.registers.f;
            &&& res == x / 2
            &&& c_flag(f) == (x % 2 == 1)
            &&& z_flag(f) == (x / 2 == 0)
            &&& !n_flag(f) && !h_flag(f)
        }),
{
    lemma_shift_bits();
    let cb = operand_byte(s, 1);
    let x = reg_code(s.registers, cb - 0x38);
    lemma_four_flags(s.registers.f, x >> 1u8 == 0, false, false, x & 1 != 0);
}

/// The signed value of a relative-jump displacement byte.
pub open spec fn displacement(e: u8) -> int {
    if e < 128 {
        e as int
    } else {
        e as int - 256
    }
}

/// The little-endian word in the two bytes after the opcode.
pub open spec fn operand_word(s: CpuView) -> int {
    operand_byte(s, 1) + 256 * operand_byte(s, 2)
}

proof fn lemma_displacement(x: u16, e: u8)
    ensures
        x.wrapping_add_signed(crate::cpu::signed_offset(e)) == (x + displacement(e)) % 0x10000,
{
}

proof fn lemma_two_up(x: u16)
    ensures
        x.wrapping_add(1).wrapping_add(1) == (x + 2) % 0x10000,
        x.wrapping_add(1) == (x + 1) % 0x10000,
{
}

/// JR e (0x18) always jumps, JR NZ (0x20) when Z is clear, JR NC (0x30)
/// when C is clear and JR C (0x38) when C is set; a jump lands at the address
/// after the two instruction bytes plus the signed displacement, modulo 2^16.
/// Nothing but the program counter changes.
pub proof fn lemma_relative_jump(s: CpuView)
    requires
        s.can_step(),
        opcode(s) == 0x18 || opcode(s) == 0x20 || opcode(s) == 0x30 || opcode(s) == 0x38,
    ensures
        ({
            let op = opcode(s);
            let f = s.registers.f;
            let taken = op == 0x18 || (op == 0x20 && !z_flag(f)) || (op == 0x30 && !c_flag(f))
                || (op == 0x38 && c_flag(f));
            let t = s.step().0;
            &&& t.pc == if taken {
                (s.pc + 2 + displacement(operand_byte(s, 1))) % 0x10000
            } else {
                s.pc + 2
            }
            &&& t.registers == s.registers
            &&& t.sp == s.sp
            &&& t.bus == s.bus
        }),
{
    let op = opcode(s);
    let next = s.advance(2);
    lemma_displacement(next.pc, operand_byte(s, 1));
    if op == 0x18 {
        assert(crate::instr::decode_spec(op) == Some(crate::instr::Instr::Jr));
    } else if op == 0x20 {
        assert(crate::instr::decode_spec(op) == Some(crate::instr::Instr::JrIf(crate::instr::Cond::NotZero)));
    } else if op == 0x30 {
        assert(crate::instr::decode_spec(op) == Some(crate::instr::Instr::JrIf(crate::instr::Cond::NotCarry)));
    } else {
        assert(crate::instr::decode_spec(op) == Some(crate::instr::Instr::JrIf(crate::instr::Cond::Carry)));
    }
}

/// JP a16 (0xC3) always jumps and JP Z (0xCA) jumps when Z is set, to the
/// little-endian address after the opcode; otherwise execution goes on after
/// the three instruction bytes.
pub proof fn lemma_absolute_jump(s: CpuView)
    requires
        s.can_step(),
        opcode(s) == 0xC3 || opcode(s) == 0xCA,
    ensures
        ({
            let taken = opcode(s) == 0xC3 || z_flag(s.registers.f);
            let t = s.step().0;
            &&& t.pc == if taken { operand_word(s) } else { s.pc + 3 }
            &&& t.registers == s.registers
            &&& t.sp == s.sp
            &&& t.bus == s.bus
        }),
{
}

/// CALL a16 (0xCD) always calls, CALL NZ (0xC4) when Z is clear, CALL C
/// (0xCC) when C is set and CALL NC (0xD4) when C is clear. A call moves SP
/// down by two, leaves the return address (the address after the three
/// instruction bytes) on the stack, high byte above low byte, and jumps to the
/// little-endian address after the opcode.
pub proof fn lemma_call(s: CpuView)
    requires
        s.can_step(),
        s.bus.wf(),
        opcode(s) == 0xCD || opcode(s) == 0xC4 || opcode(s) == 0xCC || opcode(s) == 0xD4,
    ensures
        ({
            let op = opcode(s);
            let f = s.registers.f;
            let taken = op == 0xCD || (op == 0xC4 && !z_flag(f)) || (op == 0xCC && c_flag(f))
                || (op == 0xD4 && !c_flag(f));
            let ret = s.pc + 3;
            let t = s.step().0;
            &&& t.registers == s.registers
            &&& taken ==> {
                &&& t.pc == operand_word(s)
                &&& t.sp == s.sp - 2
                &&& is_writable((s.sp - 1) as u16) && is_writable((s.sp - 2) as u16) ==> {
                    &&& t.bus.read((s.sp - 1) as u16) == ret / 256
                    &&& t.bus.read((s.sp - 2) as u16) == ret % 256
                }
            }
            &&& !taken ==> t.pc == s.pc + 3 && t.sp == s.sp && t.bus == s.bus
        }),
{
    let op = opcode(s);
    let f = s.registers.f;
    let taken = op == 0xCD || (op == 0xC4 && !z_flag(f)) || (op == 0xCC && c_flag(f))
        || (op == 0xD4 && !c_flag(f));
    let hi_addr = (s.sp - 1) as u16;
    let lo_addr = (s.sp - 2) as u16;
    if taken && is_writable(hi_addr) && is_writable(lo_addr) {
        let ret = (s.pc + 3) as u16;
        let bus1 = s.bus.write(hi_addr, crate::registers::high_byte(ret));
        crate::bus::lemma_read_after_write(s.bus, hi_addr, crate::registers::high_byte(ret));
        crate::bus::lemma_read_after_write(bus1, lo_addr, crate::registers::low_byte(ret));
        crate::bus::lemma_write_other_address(bus1, lo_addr, hi_addr, crate::registers::low_byte(ret));
    }
}

/// RET (0xC9) jumps to the little-endian word at SP and moves SP up by two.
/// RET NZ (0xC0) when Z is clear, and RET C (0xD8) when C is set, move SP
/// up by two without jumping; execution goes on after the opcode.
pub proof fn lemma_return(s: CpuView)
    requires
        s.can_step(),
        opcode(s) == 0xC9 || opcode(s) == 0xC0 || opcode(s) == 0xD8,
    ensures
        ({
            let op = opcode(s);
            let f = s.registers.f;
            let t = s.step().0;
            &&& t.registers == s.registers
            &&& t.bus == s.bus
            &&& op == 0xC9 ==> {
                &&& t.pc == s.bus.read(s.sp) + 256 * s.bus.read(((s.sp + 1) % 0x10000) as u16)
                &&& t.sp == (s.sp + 2) % 0x10000
            }
            &&& op != 0xC9 ==> {
                let taken = (op == 0xC0 && !z_flag(f)) || (op == 0xD8 && c_flag(f));
                &&& t.pc == s.pc + 1
                &&& t.sp == if taken { (s.sp + 2) % 0x10000 } else { s.sp as int }
            }
        }),
{
    let op = opcode(s);
    lemma_two_up(s.sp);
    if op == 0xC9 {
        assert(crate::instr::decode_spec(op) == Some(crate::instr::Instr::Ret));
    } else if op == 0xC0 {
        assert(crate::instr::decode_spec(op) == Some(crate::instr::Instr::DropIf(crate::instr::Cond::NotZero)));
    } else {
        assert(crate::instr::decode_spec(op) == Some(crate::instr::Instr::DropIf(crate::instr::Cond::Carry)));
    }
}

/// The address held in HL.
pub open spec fn hl_address(r: Registers) -> u16 {
    (r.h * 256 + r.l) as u16
}

/// The operand that a 3-bit code names: a register, or for code 6 the byte at HL.
pub open spec fn operand_code(s: CpuView, code: int) -> u8 {
    if code == 6 {
        s.bus.read(hl_address(s.registers))
    } else {
        reg_code(s.registers, code)
    }
}

/// Whether two register sets agree on every 8-bit register except the one
/// that a code names, and on F.
pub open spec fn same_except(r: Registers, t: Registers, code: int) -> bool {
    &&& forall|k: int| 0 <= k < 8 && k != 6 && k != code ==> #[trigger] reg_code(t, k) == reg_code(r, k)
    &&& t.f == r.f
}

/// The register that a 3-bit code other than 6 names.
spec fn reg_of_code(code: int) -> crate::registers::Reg {
    if code == 0 {
        crate::registers::Reg::B
    } else if code == 1 {
        crate::registers::Reg::C
    } else if code == 2 {
        crate::registers::Reg::D
    } else if code == 3 {
        crate::registers::Reg::E
    } else if code == 4 {
        crate::registers::Reg::H
    } else if code == 5 {
        crate::registers::Reg::L
    } else {
        crate::registers::Reg::A
    }
}

proof fn lemma_reg_of_code(r: Registers, code: int, v: u8)
    requires
        0 <= code < 8,
        code != 6,
    ensures
        r.reg(reg_of_code(code)) == reg_code(r, code),
        reg_code(r.with_reg(reg_of_code(code), v), code) == v,
        same_except(r, r.with_reg(reg_of_code(code), v), code),
{
}

#[verifier::rlimit(60)]
proof fn lemma_decode_load_row(op: u8)
    requires
        0x40 <= op <= 0x7F,
        !(0x70 <= op <= 0x77),
    ensures
        (op - 0x40) % 8 == 6 ==> crate::instr::decode_spec(op) == Some(crate::instr::Instr::LoadFromHl(reg_of_code((op - 0x40) / 8))),
        (op - 0x40) % 8 != 6 ==> crate::instr::decode_spec(op) == Some(crate::instr::Instr::Load(reg_of_code((op - 0x40) / 8), reg_of_code((op - 0x40) % 8))),
{
}

/// LD r, r' and LD r, (HL) (0x40-0x7F outside 0x70-0x77): the destination
/// register (bits 3-5 of the opcode) takes the source operand (bits 0-2);
/// every other register, F and memory stay as they were.
pub proof fn lemma_load(s: CpuView)
    requires
        s.can_step(),
        0x40 <= opcode(s) <= 0x7F,
        !(0x70 <= opcode(s) <= 0x77),
    ensures
        ({
            let dst = (opcode(s) - 0x40) / 8;
            let src = (opcode(s) - 0x40) % 8;
            let t = s.step().0;
            &&& reg_code(t.registers, dst) == operand_code(s, src)
            &&& same_except(s.registers, t.registers, dst)
            &&& t.bus == s.bus
            &&& t.pc == s.pc + 1
        }),
{
    let op = opcode(s);
    let dst = (op - 0x40) / 8;
    let src = (op - 0x40) % 8;
    lemma_decode_load_row(op);
    let r = s.registers;
    if src != 6 {
        lemma_reg_of_code(r, src, 0);
    }
    lemma_reg_of_code(r, dst, operand_code(s, src));
}

/// LD (HL), r (0x70-0x75, 0x77): the byte at HL becomes register r (bits
/// 0-2 of the opcode) when HL is writable memory; no register changes.
pub proof fn lemma_store_through_hl(s: CpuView)
    requires
        s.can_step(),
        s.bus.wf(),
        0x70 <= opcode(s) <= 0x77,
        opcode(s) != 0x76,
    ensures
        ({
            let t = s.step().0;
            let addr = hl_address(s.registers);
            &&& is_writable(addr) ==> t.bus.read(addr) == reg_code(s.registers, opcode(s) - 0x70)
            &&& !is_writable(addr) ==> t.bus == s.bus
            &&& forall|other: u16| other != addr ==> #[trigger] t.bus.read(other) == s.bus.read(other)
            &&& t.registers == s.registers
            &&& t.pc == s.pc + 1
        }),
{
    let addr = hl_address(s.registers);
    let v = reg_code(s.registers, opcode(s) - 0x70);
    crate::bus::lemma_read_after_write(s.bus, addr, v);
    assert forall|other: u16| other != addr implies #[trigger] s.bus.write(addr, v).read(other) == s.bus.read(other) by {
        crate::bus::lemma_write_other_address(s.bus, addr, other, v);
    }
}

/// LD (HL+), A (0x22) and LD (HL-), A (0x32) store A at HL, then add or
/// subtract one from HL modulo 2^16; LD A, (HL+) (0x2A) and LD A, (HL-)
/// (0x3A) load A from HL, then move HL the same way.
pub proof fn lemma_hl_step_transfer(s: CpuView)
    requires
        s.can_step(),
        s.bus.wf(),
        opcode(s) == 0x22 || opcode(s) == 0x32 || opcode(s) == 0x2A || opcode(s) == 0x3A,
    ensures
        ({
            let op = opcode(s);
            let addr = hl_address(s.registers);
            let t = s.step().0;
            let hl = s.registers.h * 256 + s.registers.l;
            &&& t.registers.h * 256 + t.registers.l == if op == 0x22 || op == 0x2A {
                (hl + 1) % 0x10000
            } else {
                (hl + 0xFFFF) % 0x10000
            }
            &&& (op == 0x22 || op == 0x32) ==> {
                &&& is_writable(addr) ==> t.bus.read(addr) == s.registers.a
                &&& t.registers.a == s.registers.a
            }
            &&& (op == 0x2A || op == 0x3A) ==> t.registers.a == s.bus.read(addr) && t.bus == s.bus
            &&& t.registers.f == s.registers.f
            &&& t.pc == s.pc + 1
        }),
{
    let addr = hl_address(s.registers);
    let op = opcode(s);
    let r = s.registers;
    crate::bus::lemma_read_after_write(s.bus, addr, s.registers.a);
    lemma_wrap16(r.hl());
    crate::registers::lemma_pair_write_read(r.hl().wrapping_add(1));
    crate::registers::lemma_pair_write_read(r.hl().wrapping_sub(1));
    if op == 0x22 {
        assert(s.step() == s.advance(1).execute(Instr::StoreAHlInc));
    } else if op == 0x32 {
        assert(s.step() == s.advance(1).execute(Instr::StoreAHlDec));
    } else if op == 0x2A {
        assert(s.step() == s.advance(1).execute(Instr::LoadAHlInc));
    } else {
        assert(s.step() == s.advance(1).execute(Instr::LoadAHlDec));
    }
}

/// LDH (a8), A (0xE0) stores A at 0xFF00 plus the byte after the opcode;
/// LDH A, (a8) (0xF0) loads A from there.
pub proof fn lemma_high_page_transfer(s: CpuView)
    requires
        s.can_step(),
        s.bus.wf(),
        opcode(s) == 0xE0 || opcode(s) == 0xF0,
    ensures
        ({
            let addr = (0xFF00 + operand_byte(s, 1)) as u16;
            let t = s.step().0;
            &&& opcode(s) == 0xE0 ==> t.registers == s.registers && (is_writable(addr) ==> t.bus.read(addr) == s.registers.a)
            &&& opcode(s) == 0xF0 ==> t.registers.a == s.bus.read(addr) && t.bus == s.bus
            &&& t.pc == s.pc + 2
        }),
{
    let addr = (0xFF00 + operand_byte(s, 1)) as u16;
    crate::bus::lemma_read_after_write(s.bus, addr, s.registers.a);
}

/// LD (a16), A (0xEA) stores A at the little-endian address after the opcode.
pub proof fn lemma_absolute_store(s: CpuView)
    requires
        s.can_step(),
        s.bus.wf(),
        opcode(s) == 0xEA,
    ensures
        ({
            let addr = operand_word(s) as u16;
            let t = s.step().0;
            &&& is_writable(addr) ==> t.bus.read(addr) == s.registers.a
            &&& t.registers == s.registers
        }),
{
    let addr = operand_word(s) as u16;
    crate::bus::lemma_read_after_write(s.bus, addr, s.registers.a);
}

/// The operand an 8-bit arithmetic or logic opcode names: bits 0-2 of the
/// opcode for the 0x80-0xBF block, the byte after the opcode otherwise.
pub open spec fn alu_operand(s: CpuView) -> u8 {
    if opcode(s) >= 0xC0 {
        operand_byte(s, 1)
    } else {
        operand_code(s, (opcode(s) - 0x80) % 8)
    }
}

/// How far the program counter moves over an arithmetic or logic instruction.
pub open spec fn alu_length(s: CpuView) -> int {
    if opcode(s) >= 0xC0 { 2 } else { 1 }
}

proof fn lemma_operand_of_code(s: CpuView, code: int)
    requires
        0 <= code < 8,
    ensures
        code == 6 ==> s.operand(crate::instr::Operand::AtHl) == operand_code(s, code),
        code != 6 ==> s.operand(crate::instr::Operand::Reg(reg_of_code(code))) == operand_code(s, code),
{
}

#[verifier::rlimit(60)]
proof fn lemma_decode_alu(op: u8)
    requires
        0x80 <= op <= 0xBF,
    ensures
        ({
            let k = (op - 0x80) % 8;
            let o = if k == 6 { Operand::AtHl } else { Operand::Reg(reg_of_code(k)) };
            &&& 0x80 <= op <= 0x87 ==> crate::instr::decode_spec(op) == Some(Instr::Add(o))
            &&& 0x90 <= op <= 0x97 ==> crate::instr::decode_spec(op) == Some(Instr::Sub(o))
            &&& 0xA8 <= op <= 0xAE ==> crate::instr::decode_spec(op) == Some(Instr::Xor(o))
            &&& 0xB1 <= op <= 0xB7 ==> crate::instr::decode_spec(op) == Some(Instr::Or(o))
            &&& 0xA0 <= op <= 0xA5 ==> crate::instr::decode_spec(op) == Some(Instr::AndSelf(reg_of_code(k)))
        }),
{
}

/// ADD A, operand (0x80-0x87, 0xC6): A becomes A + v modulo 256; Z tells
/// whether the result is zero, N is cleared, H tells whether the low nibbles
/// carry and C whether the sum exceeds 255.
pub proof fn lemma_add(s: CpuView)
    requires
        s.can_step(),
        0x80 <= opcode(s) <= 0x87 || opcode(s) == 0xC6,
    ensures
        ({
            let a = s.registers.a;
            let v = alu_operand(s);
            let t = s.step().0;
            &&& t.registers.a == (a + v) % 256
            &&& z_flag(t.registers.f) == ((a + v) % 256 == 0)
            &&& !n_flag(t.registers.f)
            &&& h_flag(t.registers.f) == (a % 16 + v % 16 > 15)
            &&& c_flag(t.registers.f) == (a + v > 255)
            &&& t.pc == s.pc + alu_length(s)
        }),
{
    let a = s.registers.a;
    let v = alu_operand(s);
    if opcode(s) != 0xC6 {
        lemma_decode_alu(opcode(s));
        lemma_operand_of_code(s.advance(1), (opcode(s) - 0x80) % 8);
    }
    lemma_four_flags(s.registers.f, (a + v) % 256 == 0, false, a % 16 + v % 16 > 15, a + v > 255);
}

/// SUB A, operand (0x90-0x97): A becomes A - v modulo 256; Z tells whether
/// the result is zero, N is set, H tells whether the low nibble borrows and C
/// whether A is less than v.
#[verifier::rlimit(40)]
pub proof fn lemma_sub(s: CpuView)
    requires
        s.can_step(),
        0x90 <= opcode(s) <= 0x97,
    ensures
        ({
            let a = s.registers.a;
            let v = alu_operand(s);
            let t = s.step().0;
            &&& t.registers.a == (a + 256 - v) % 256
            &&& z_flag(t.registers.f) == (a == v)
            &&& n_flag(t.registers.f)
            &&& h_flag(t.registers.f) == (a % 16 < v % 16)
            &&& c_flag(t.registers.f) == (a < v)
            &&& t.pc == s.pc + 1
        }),
{
    let a = s.registers.a;
    let v = alu_operand(s);
    lemma_decode_alu(opcode(s));
    lemma_operand_of_code(s.advance(1), (opcode(s) - 0x80) % 8);
    assert(a.wrapping_sub(v) == (a + 256 - v) % 256);
    assert((a.wrapping_sub(v) == 0) == (a == v));
    lemma_four_flags(s.registers.f, a.wrapping_sub(v) == 0, true, a % 16 < v % 16, a < v);
    let o = if (opcode(s) - 0x80) % 8 == 6 { Operand::AtHl } else { Operand::Reg(reg_of_code((opcode(s) - 0x80) % 8)) };
    assert(s.step() == s.advance(1).execute(Instr::Sub(o)));
}

/// AND A, operand (0xA6, 0xA7, 0xE6), XOR A, operand (0xA8-0xAE) and OR A,
/// operand (0xB1-0xB7): A becomes the bitwise and, exclusive or, or of A and
/// v; Z tells whether it is zero, N and C are cleared, and H is set for AND
/// only.
pub proof fn lemma_logic(s: CpuView)
    requires
        s.can_step(),
        opcode(s) == 0xA6 || opcode(s) == 0xA7 || opcode(s) == 0xE6 || 0xA8 <= opcode(s) <= 0xAE
            || 0xB1 <= opcode(s) <= 0xB7,
    ensures
        ({
            let op = opcode(s);
            let a = s.registers.a;
            let v = alu_operand(s);
            let is_and = op == 0xA6 || op == 0xA7 || op == 0xE6;
            let is_xor = 0xA8 <= op <= 0xAE;
            let res = if is_and { a & v } else if is_xor { a ^ v } else { a | v };
            let t = s.step().0;
            &&& t.registers.a == res
            &&& z_flag(t.registers.f) == (res == 0)
            &&& !n_flag(t.registers.f) && !c_flag(t.registers.f)
            &&& h_flag(t.registers.f) == is_and
            &&& t.pc == s.pc + alu_length(s)
        }),
{
    let op = opcode(s);
    let a = s.registers.a;
    let v = alu_operand(s);
    let is_and = op == 0xA6 || op == 0xA7 || op == 0xE6;
    let is_xor = 0xA8 <= op <= 0xAE;
    let res = if is_and { a & v } else if is_xor { a ^ v } else { a | v };
    if op != 0xE6 {
        lemma_decode_alu(op);
        lemma_operand_of_code(s.advance(1), (op - 0x80) % 8);
    }
    lemma_four_flags(s.registers.f, res == 0, false, is_and, false);
}

/// XOR A, A (0xAF) clears A and sets F to the zero flag alone.
pub proof fn lemma_clear_a(s: CpuView)
    requires
        s.can_step(),
        opcode(s) == 0xAF,
    ensures
        s.step().0.registers.a == 0,
        s.step().0.registers.f == 0x80,
{
}

/// AND r, r (0xA0-0xA5) and OR B, B (0xB0) leave every register but F as it
/// was; Z tells whether r is zero, N and C are cleared, H is set for AND.
pub proof fn lemma_self_logic(s: CpuView)
    requires
        s.can_step(),
        0xA0 <= opcode(s) <= 0xA5 || opcode(s) == 0xB0,
    ensures
        ({
            let op = opcode(s);
            let x = reg_code(s.registers, (op - 0x80) % 8);
            let t = s.step().0;
            &&& forall|k: int| 0 <= k < 8 && k != 6 ==> #[trigger] reg_code(t.registers, k) == reg_code(s.registers, k)
            &&& z_flag(t.registers.f) == (x == 0)
            &&& !n_flag(t.registers.f) && !c_flag(t.registers.f)
            &&& h_flag(t.registers.f) == (op != 0xB0)
        }),
{
    let op = opcode(s);
    let x = reg_code(s.registers, (op - 0x80) % 8);
    if op != 0xB0 {
        lemma_decode_alu(op);
        lemma_reg_of_code(s.registers, (op - 0x80) % 8, 0);
    }
    lemma_four_flags(s.registers.f, x == 0, false, op != 0xB0, false);
}

/// The 16-bit register pair that a 2-bit code names: 0 BC, 1 DE, 2 HL.
pub open spec fn pair_code(r: Registers, code: int) -> int {
    if code == 0 {
        r.b * 256 + r.c
    } else if code == 1 {
        r.d * 256 + r.e
    } else {
        r.h * 256 + r.l
    }
}

#[verifier::rlimit(40)]
proof fn lemma_decode_inc_dec(op: u8)
    ensures
        (op == 0x04 || op == 0x0C || op == 0x14 || op == 0x1C || op == 0x2C || op == 0x3C)
            ==> crate::instr::decode_spec(op) == Some(Instr::Inc(reg_of_code((op - 0x04) / 8))),
        (op == 0x05 || op == 0x0D || op == 0x25 || op == 0x2D || op == 0x3D)
            ==> crate::instr::decode_spec(op) == Some(Instr::Dec(reg_of_code((op - 0x05) / 8))),
{
}

spec fn inc_dec_instr(code: int, inc: bool) -> Instr {
    if inc { Instr::Inc(reg_of_code(code)) } else { Instr::Dec(reg_of_code(code)) }
}

proof fn lemma_inc_dec_effect(s: CpuView, code: int, inc: bool)
    requires
        0 <= code < 8,
        code != 6,
    ensures
        ({
            let x = reg_code(s.registers, code);
            let t = s.execute(inc_dec_instr(code, inc)).0;
            &&& reg_code(t.registers, code) == if inc { (x + 1) % 256 } else { (x + 255) % 256 }
            &&& forall|k: int| 0 <= k < 8 && k != 6 && k != code ==> #[trigger] reg_code(t.registers, k) == reg_code(s.registers, k)
            &&& z_flag(t.registers.f) == if inc { (x + 1) % 256 == 0 } else { x == 1 }
            &&& n_flag(t.registers.f) == !inc
            &&& h_flag(t.registers.f) == (x % 16 == 15)
            &&& c_flag(t.registers.f) == c_flag(s.registers.f)
        }),
{
    let x = reg_code(s.registers, code);
    let res = if inc { x.wrapping_add(1) } else { x.wrapping_sub(1) };
    assert(x.wrapping_add(1) == (x + 1) % 256);
    assert(x.wrapping_sub(1) == (x + 255) % 256);
    lemma_reg_of_code(s.registers, code, res);
    let r1 = s.registers.with_reg(reg_of_code(code), res);
    lemma_four_flags(r1.f, res == 0, !inc, x % 16 == 15, false);
}

/// INC r (0x04, 0x0C, 0x14, 0x1C, 0x2C, 0x3C): r (bits 3-5 of the opcode)
/// becomes r + 1 modulo 256; Z tells whether the result is zero, N is
/// cleared, H is set when the low nibble of r was 0xF, C is unchanged; the
/// other registers stay.
pub proof fn lemma_increment(s: CpuView)
    requires
        s.can_step(),
        opcode(s) == 0x04 || opcode(s) == 0x0C || opcode(s) == 0x14 || opcode(s) == 0x1C
            || opcode(s) == 0x2C || opcode(s) == 0x3C,
    ensures
        ({
            let code = (opcode(s) - 0x04) / 8;
            let x = reg_code(s.registers, code);
            let t = s.step().0;
            &&& reg_code(t.registers, code) == (x + 1) % 256
            &&& forall|k: int| 0 <= k < 8 && k != 6 && k != code ==> #[trigger] reg_code(t.registers, k) == reg_code(s.registers, k)
            &&& z_flag(t.registers.f) == ((x + 1) % 256 == 0)
            &&& !n_flag(t.registers.f)
            &&& h_flag(t.registers.f) == (x % 16 == 15)
            &&& c_flag(t.registers.f) == c_flag(s.registers.f)
        }),
{
    let code = (opcode(s) - 0x04) / 8;
    lemma_decode_inc_dec(opcode(s));
    lemma_inc_dec_effect(s.advance(1), code, true);
}

/// DEC r (0x05, 0x0D, 0x25, 0x2D, 0x3D): r becomes r - 1 modulo 256; Z tells
/// whether the result is zero, N is set, H is set when the low nibble of r
/// was 0xF, C is unchanged; the other registers stay.
pub proof fn lemma_decrement(s: CpuView)
    requires
        s.can_step(),
        opcode(s) == 0x05 || opcode(s) == 0x0D || opcode(s) == 0x25 || opcode(s) == 0x2D
            || opcode(s) == 0x3D,
    ensures
        ({
            let code = (opcode(s) - 0x05) / 8;
            let x = reg_code(s.registers, code);
            let t = s.step().0;
            &&& reg_code(t.registers, code) == (x + 255) % 256
            &&& forall|k: int| 0 <= k < 8 && k != 6 && k != code ==> #[trigger] reg_code(t.registers, k) == reg_code(s.registers, k)
            &&& z_flag(t.registers.f) == (x == 1)
            &&& n_flag(t.registers.f)
            &&& h_flag(t.registers.f) == (x % 16 == 15)
            &&& c_flag(t.registers.f) == c_flag(s.registers.f)
        }),
{
    let code = (opcode(s) - 0x05) / 8;
    lemma_decode_inc_dec(opcode(s));
    lemma_inc_dec_effect(s.advance(1), code, false);
}

spec fn pair_of_code(code: int) -> crate::registers::Pair {
    if code == 0 {
        crate::registers::Pair::BC
    } else if code == 1 {
        crate::registers::Pair::DE
    } else {
        crate::registers::Pair::HL
    }
}

spec fn pair_step_instr(code: int, inc: bool) -> Instr {
    if code == 3 {
        if inc { Instr::IncSp } else { Instr::DecSp }
    } else if inc {
        Instr::IncPair(pair_of_code(code))
    } else {
        Instr::DecPair(pair_of_code(code))
    }
}

#[verifier::rlimit(40)]
proof fn lemma_decode_pair_step(op: u8)
    requires
        op == 0x03 || op == 0x13 || op == 0x23 || op == 0x33 || op == 0x0B || op == 0x1B
            || op == 0x2B || op == 0x3B,
    ensures
        crate::instr::decode_spec(op) == Some(pair_step_instr((op - 0x03) / 16, op % 16 == 3)),
{
}

proof fn lemma_pair_update(r: Registers, code: int, nv: u16)
    requires
        0 <= code < 3,
    ensures
        pair_code(r.with_pair(pair_of_code(code), nv), code) == nv,
        forall|k: int| 0 <= k < 3 && k != code ==> #[trigger] pair_code(r.with_pair(pair_of_code(code), nv), k) == pair_code(r, k),
        r.with_pair(pair_of_code(code), nv).a == r.a,
        r.with_pair(pair_of_code(code), nv).f == r.f,
        r.pair(pair_of_code(code)) == pair_code(r, code),
{
    crate::registers::lemma_pair_write_read(nv);
}

proof fn lemma_wrap16(v: u16)
    ensures
        v.wrapping_add(1) == (v + 1) % 0x10000,
        v.wrapping_sub(1) == (v + 0xFFFF) % 0x10000,
{
}

proof fn lemma_pair_step_effect(s: CpuView, code: int, inc: bool)
    requires
        0 <= code < 4,
    ensures
        ({
            let delta: int = if inc { 1 } else { 0xFFFF };
            let t = s.execute(pair_step_instr(code, inc)).0;
            &&& code < 3 ==> {
                &&& pair_code(t.registers, code) == (pair_code(s.registers, code) + delta) % 0x10000
                &&& forall|k: int| 0 <= k < 3 && k != code ==> #[trigger] pair_code(t.registers, k) == pair_code(s.registers, k)
                &&& t.registers.a == s.registers.a && t.registers.f == s.registers.f
                &&& t.sp == s.sp
            }
            &&& code == 3 ==> t.sp == (s.sp + delta) % 0x10000 && t.registers == s.registers
            &&& t.pc == s.pc
        }),
{
    let r = s.registers;
    lemma_wrap16(s.sp);
    if code < 3 {
        let v = r.pair(pair_of_code(code));
        lemma_wrap16(v);
        let nv = if inc { v.wrapping_add(1) } else { v.wrapping_sub(1) };
        lemma_pair_update(r, code, nv);
        assert(s.execute(pair_step_instr(code, inc)).0 == s.with_registers(r.with_pair(pair_of_code(code), nv)));
    }
}

/// INC rr (0x03, 0x13, 0x23) adds one to BC, DE or HL and DEC rr (0x0B,
/// 0x1B, 0x2B) subtracts one, modulo 2^16; INC SP (0x33) and DEC SP (0x3B)
/// do the same to SP. F and the other pairs stay.
pub proof fn lemma_pair_step(s: CpuView)
    requires
        s.can_step(),
        opcode(s) == 0x03 || opcode(s) == 0x13 || opcode(s) == 0x23 || opcode(s) == 0x33
            || opcode(s) == 0x0B || opcode(s) == 0x1B || opcode(s) == 0x2B || opcode(s) == 0x3B,
    ensures
        ({
            let op = opcode(s);
            let code = (op - 0x03) / 16;
            let delta: int = if op % 16 == 3 { 1 } else { 0xFFFF };
            let t = s.step().0;
            &&& code < 3 ==> {
                &&& pair_code(t.registers, code) == (pair_code(s.registers, code) + delta) % 0x10000
                &&& forall|k: int| 0 <= k < 3 && k != code ==> #[trigger] pair_code(t.registers, k) == pair_code(s.registers, k)
                &&& t.registers.a == s.registers.a && t.registers.f == s.registers.f
                &&& t.sp == s.sp
            }
            &&& code == 3 ==> t.sp == (s.sp + delta) % 0x10000 && t.registers == s.registers
            &&& t.pc == s.pc + 1
        }),
{
    let op = opcode(s);
    let code = (op - 0x03) / 16;
    let inc = op % 16 == 3;
    let next = s.advance(1);
    lemma_decode_pair_step(op);
    lemma_pair_step_effect(next, code, inc);
}

/// PUSH rr (0xC5 BC, 0xD5 DE, 0xE5 HL) moves SP down by two and leaves the
/// pair on the stack, high byte above low byte, when both bytes are writable.
pub proof fn lemma_push(s: CpuView)
    requires
        s.can_step(),
        s.bus.wf(),
        opcode(s) == 0xC5 || opcode(s) == 0xD5 || opcode(s) == 0xE5,
    ensures
        ({
            let code = (opcode(s) - 0xC5) / 16;
            let v = pair_code(s.registers, code);
            let t = s.step().0;
            &&& t.sp == s.sp - 2
            &&& t.registers == s.registers
            &&& is_writable((s.sp - 1) as u16) && is_writable((s.sp - 2) as u16) ==> {
                &&& t.bus.read((s.sp - 1) as u16) == v / 256
                &&& t.bus.read((s.sp - 2) as u16) == v % 256
            }
        }),
{
    let code = (opcode(s) - 0xC5) / 16;
    let v = pair_code(s.registers, code) as u16;
    let hi_addr = (s.sp - 1) as u16;
    let lo_addr = (s.sp - 2) as u16;
    let bus1 = s.bus.write(hi_addr, crate::registers::high_byte(v));
    crate::bus::lemma_read_after_write(s.bus, hi_addr, crate::registers::high_byte(v));
    crate::bus::lemma_read_after_write(bus1, lo_addr, crate::registers::low_byte(v));
    if hi_addr != lo_addr {
        crate::bus::lemma_write_other_address(bus1, lo_addr, hi_addr, crate::registers::low_byte(v));
    }
}

/// POP rr (0xC1 BC, 0xD1 DE, 0xE1 HL) loads the pair from the little-endian
/// word at SP and moves SP up by two, modulo 2^16.
pub proof fn lemma_pop(s: CpuView)
    requires
        s.can_step(),
        opcode(s) == 0xC1 || opcode(s) == 0xD1 || opcode(s) == 0xE1,
    ensures
        ({
            let code = (opcode(s) - 0xC1) / 16;
            let t = s.step().0;
            &&& pair_code(t.registers, code) == s.bus.read(s.sp) + 256 * s.bus.read(((s.sp + 1) % 0x10000) as u16)
            &&& t.sp == (s.sp + 2) % 0x10000
            &&& t.registers.a == s.registers.a && t.registers.f == s.registers.f
            &&& t.bus == s.bus
        }),
{
    lemma_two_up(s.sp);
    let w = crate::registers::word(s.bus.read(s.sp.wrapping_add(1)), s.bus.read(s.sp));
    crate::registers::lemma_pair_write_read(w);
}

/// LD rr, d16 (0x01 BC, 0x11 DE, 0x21 HL, 0x31 SP) loads the little-endian
/// word after the opcode.
pub proof fn lemma_load_word(s: CpuView)
    requires
        s.can_step(),
        opcode(s) == 0x01 || opcode(s) == 0x11 || opcode(s) == 0x21 || opcode(s) == 0x31,
    ensures
        ({
            let code = (opcode(s) - 0x01) / 16;
            let t = s.step().0;
            &&& code < 3 ==> pair_code(t.registers, code) == operand_word(s) && t.sp == s.sp
            &&& code == 3 ==> t.sp == operand_word(s) && t.registers == s.registers
            &&& t.pc == s.pc + 3
            &&& t.bus == s.bus
        }),
{
    let w = crate::registers::word(operand_byte(s, 2), operand_byte(s, 1));
    crate::registers::lemma_pair_write_read(w);
}

/// LD r, d8 (0x0E C, 0x26 H, 0x3E A) loads the byte after the opcode and
/// moves past it; 0x06 loads that byte into B but does not move past it.
pub proof fn lemma_load_byte(s: CpuView)
    requires
        s.can_step(),
        opcode(s) == 0x06 || opcode(s) == 0x0E || opcode(s) == 0x26 || opcode(s) == 0x3E,
    ensures
        ({
            let code = (opcode(s) - 0x06) / 8;
            let t = s.step().0;
            &&& reg_code(t.registers, code) == operand_byte(s, 1)
            &&& forall|k: int| 0 <= k < 8 && k != 6 && k != code ==> #[trigger] reg_code(t.registers, k) == reg_code(s.registers, k)
            &&& t.registers.f == s.registers.f
            &&& t.pc == s.pc + if opcode(s) == 0x06 { 1int } else { 2int }
        }),
{
    let code = (opcode(s) - 0x06) / 8;
    lemma_reg_of_code(s.registers, code, operand_byte(s, 1));
}

proof fn lemma_flag_set(f: u8, i: u8, v: bool)
    requires
        4 <= i < 8,
    ensures
        bit_of(with_bit(f, i, v), i) == v,
        forall|j: u8| 4 <= j < 8 && j != i ==> #[trigger] bit_of(with_bit(f, i, v), j) == bit_of(f, j),
{
    lemma_with_bit(f, i, i, v);
    assert forall|j: u8| 4 <= j < 8 && j != i implies #[trigger] bit_of(with_bit(f, i, v), j) == bit_of(f, j) by {
        lemma_with_bit(f, i, j, v);
    }
}

/// CPL (0x2F) complements A and sets N and H; SCF (0x37) sets C and CCF
/// (0x3F) inverts it, both clearing N and H. Z is kept by all three.
pub proof fn lemma_flag_instructions(s: CpuView)
    requires
        s.can_step(),
        opcode(s) == 0x2F || opcode(s) == 0x37 || opcode(s) == 0x3F,
    ensures
        ({
            let op = opcode(s);
            let f = s.registers.f;
            let t = s.step().0;
            &&& z_flag(t.registers.f) == z_flag(f)
            &&& op == 0x2F ==> {
                &&& t.registers.a == 255 - s.registers.a
                &&& n_flag(t.registers.f) && h_flag(t.registers.f)
                &&& c_flag(t.registers.f) == c_flag(f)
            }
            &&& op != 0x2F ==> {
                &&& t.registers.a == s.registers.a
                &&& !n_flag(t.registers.f) && !h_flag(t.registers.f)
                &&& c_flag(t.registers.f) == (op == 0x37 || !c_flag(f))
            }
        }),
{
    let op = opcode(s);
    let f = s.registers.f;
    let a = s.registers.a;
    assert((!a) as int == 255 - a) by (bit_vector);
    if op == 0x2F {
        lemma_flag_set(f, 6, true);
        lemma_flag_set(with_bit(f, 6, true), 5, true);
    } else {
        let c = op == 0x37 || !c_flag(f);
        lemma_flag_set(f, 6, false);
        lemma_flag_set(with_bit(f, 6, false), 5, false);
        lemma_flag_set(with_bit(with_bit(f, 6, false), 5, false), 4, c);
    }
}

/// DI (0xF3) clears and EI (0xFB) sets the interrupt master enable; nothing
/// else but the program counter changes.
pub proof fn lemma_interrupt_switch(s: CpuView)
    requires
        s.can_step(),
        opcode(s) == 0xF3 || opcode(s) == 0xFB,
    ensures
        s.step().0.ime == (opcode(s) == 0xFB),
        s.step().0.registers == s.registers,
        s.step().0.bus == s.bus,
        s.step().0.sp == s.sp,
        s.step().0.pc == s.pc + 1,
{
}

/// XOR d8 (0xEE) sets A to A exclusive-or the byte after the opcode and sets
/// Z exactly when that byte is zero; N, H and C are kept.
pub proof fn lemma_xor_immediate(s: CpuView)
    requires
        s.can_step(),
        opcode(s) == 0xEE,
    ensures
        ({
            let v = operand_byte(s, 1);
            let f = s.registers.f;
            let t = s.step().0;
            &&& t.registers.a == s.registers.a ^ v
            &&& z_flag(t.registers.f) == (v == 0)
            &&& n_flag(t.registers.f) == n_flag(f)
            &&& h_flag(t.registers.f) == h_flag(f)
            &&& c_flag(t.registers.f) == c_flag(f)
            &&& t.pc == s.pc + 2
        }),
{
    lemma_flag_set(s.registers.f, 7, operand_byte(s, 1) == 0);
}

/// RST 38h (0xFF) pushes the address after the opcode and jumps to 0x0038.
pub proof fn lemma_restart(s: CpuView)
    requires
        s.can_step(),
        s.bus.wf(),
        opcode(s) == 0xFF,
    ensures
        ({
            let ret = s.pc + 1;
            let t = s.step().0;
            &&& t.pc == 0x0038
            &&& t.sp == s.sp - 2
            &&& t.registers == s.registers
            &&& is_writable((s.sp - 1) as u16) && is_writable((s.sp - 2) as u16) ==> {
                &&& t.bus.read((s.sp - 1) as u16) == ret / 256
                &&& t.bus.read((s.sp - 2) as u16) == ret % 256
            }
        }),
{
    let ret = (s.pc + 1) as u16;
    let hi_addr = (s.sp - 1) as u16;
    let lo_addr = (s.sp - 2) as u16;
    let bus1 = s.bus.write(hi_addr, crate::registers::high_byte(ret));
    crate::bus::lemma_read_after_write(s.bus, hi_addr, crate::registers::high_byte(ret));
    crate::bus::lemma_read_after_write(bus1, lo_addr, crate::registers::low_byte(ret));
    if hi_addr != lo_addr {
        crate::bus::lemma_write_other_address(bus1, lo_addr, hi_addr, crate::registers::low_byte(ret));
    }
}

/// BIT 7, H (CB 0x7C) sets Z exactly when bit 7 of H is clear, clears N,
/// sets H and keeps C; no register but F changes.
pub proof fn lemma_test_bit_7_of_h(s: CpuView)
    requires
        s.can_step(),
        opcode(s) == 0xCB,
        operand_byte(s, 1) == 0x7C,
    ensures
        ({
            let t = s.step().0;
            &&& z_flag(t.registers.f) == (s.registers.h < 128)
            &&& !n_flag(t.registers.f) && h_flag(t.registers.f)
            &&& c_flag(t.registers.f) == c_flag(s.registers.f)
            &&& t.registers.a == s.registers.a && t.registers.h == s.registers.h
            &&& t.pc == s.pc + 2
        }),
{
    let h = s.registers.h;
    assert((h & 0x80u8 == 0) == (h < 128)) by (bit_vector);
    lemma_four_flags(s.registers.f, h & 0x80u8 == 0, false, true, false);
}

/// SWAP (HL) (CB 0x36) and SRL (HL) (CB 0x3E) write the result back to HL
/// when HL is writable; RR (HL) (CB 0x1E) only sets the flags and leaves
/// memory as it was.
pub proof fn lemma_cb_memory(s: CpuView)
    requires
        s.can_step(),
        s.bus.wf(),
        opcode(s) == 0xCB,
        operand_byte(s, 1) == 0x36 || operand_byte(s, 1) == 0x3E || operand_byte(s, 1) == 0x1E,
    ensures
        ({
            let cb = operand_byte(s, 1);
            let addr = hl_address(s.registers);
            let x = s.bus.read(addr);
            let t = s.step().0;
            &&& cb == 0x36 && is_writable(addr) ==> t.bus.read(addr) == (x % 16) * 16 + x / 16
            &&& cb == 0x3E && is_writable(addr) ==> t.bus.read(addr) == x / 2
            &&& cb == 0x3E ==> c_flag(t.registers.f) == (x % 2 == 1)
            &&& cb == 0x1E ==> t.bus == s.bus && c_flag(t.registers.f) == (x % 2 == 1)
            &&& t.registers.a == s.registers.a
        }),
{
    lemma_shift_bits();
    let addr = hl_address(s.registers);
    let x = s.bus.read(addr);
    crate::bus::lemma_read_after_write(s.bus, addr, (x << 4u8) | (x >> 4u8));
    crate::bus::lemma_read_after_write(s.bus, addr, x >> 1u8);
    lemma_four_flags(s.registers.f, (x >> 1u8) == 0, false, false, x & 1 != 0);
    let carry_in: u8 = if s.registers.carry() { 0x80 } else { 0x00 };
    lemma_four_flags(s.registers.f, ((x >> 1u8) | carry_in) == 0, false, false, x & 1 != 0);
}

/// PUSH AF (0xF5) leaves A and the four flag bits of F on the stack, high
/// byte above low byte; the low four bits of the stored F are clear.
pub proof fn lemma_push_af(s: CpuView)
    requires
        s.can_step(),
        s.bus.wf(),
        opcode(s) == 0xF5,
    ensures
        ({
            let t = s.step().0;
            &&& t.sp == s.sp - 2
            &&& t.registers == s.registers
            &&& is_writable((s.sp - 1) as u16) && is_writable((s.sp - 2) as u16) ==> {
                &&& t.bus.read((s.sp - 1) as u16) == s.registers.a
                &&& t.bus.read((s.sp - 2) as u16) == (s.registers.f / 16) * 16
            }
        }),
{
    let f = s.registers.f;
    assert((f & 0xF0u8) == ((f as u16 / 16) * 16) as u8) by (bit_vector);
    let v = crate::registers::word(s.registers.a, f & 0xF0u8);
    crate::registers::lemma_pair_read_write(s.registers.a, f & 0xF0u8);
    let hi_addr = (s.sp - 1) as u16;
    let lo_addr = (s.sp - 2) as u16;
    let bus1 = s.bus.write(hi_addr, crate::registers::high_byte(v));
    crate::bus::lemma_read_after_write(s.bus, hi_addr, crate::registers::high_byte(v));
    crate::bus::lemma_read_after_write(bus1, lo_addr, crate::registers::low_byte(v));
    if hi_addr != lo_addr {
        crate::bus::lemma_write_other_address(bus1, lo_addr, hi_addr, crate::registers::low_byte(v));
    }
}

/// POP AF (0xF1) loads A from SP + 1; of the byte at SP it keeps the high
/// nibble only, and then rebuilds the flags from it: Z is set exactly when
/// that nibble is zero, N is cleared, and H and C both take bit 4 of the byte.
/// SP moves up by two, modulo 2^16.
pub proof fn lemma_pop_af(s: CpuView)
    requires
        s.can_step(),
        opcode(s) == 0xF1,
    ensures
        ({
            let lo = s.bus.read(s.sp);
            let t = s.step().0;
            &&& t.registers.a == s.bus.read(((s.sp + 1) % 0x10000) as u16)
            &&& z_flag(t.registers.f) == (lo / 16 == 0)
            &&& !n_flag(t.registers.f)
            &&& h_flag(t.registers.f) == ((lo / 16) % 2 == 1)
            &&& c_flag(t.registers.f) == ((lo / 16) % 2 == 1)
            &&& t.registers.f % 16 == 0
            &&& t.sp == (s.sp + 2) % 0x10000
        }),
{
    lemma_two_up(s.sp);
    let lo = s.bus.read(s.sp);
    let hi = s.bus.read(s.sp.wrapping_add(1));
    let w = crate::registers::word(hi, lo);
    crate::registers::lemma_pair_read_write(hi, lo);
    assert((w & 0xFFF0u16) as int / 256 == hi && (w & 0xFFF0u16) as int % 256 == (lo & 0xF0u8)) by (bit_vector)
        requires
            w == hi as u16 * 256 + lo as u16,
    ;
    let f0 = lo & 0xF0u8;
    let f1 = with_bit(f0, 7, f0 == 0);
    let f2 = with_bit(f1, 6, f1 & 0x08u8 == 0x08u8);
    let f3 = with_bit(f2, 5, f2 & 0x10u8 == 0x10u8);
    let f4 = with_bit(f3, 4, f3 & 0x20u8 == 0x20u8);
    assert({
        let f0 = lo & 0xF0u8;
        let f1 = if f0 == 0 { f0 | (1u8 << 7u8) } else { f0 & !(1u8 << 7u8) };
        let f2 = if f1 & 0x08u8 == 0x08u8 { f1 | (1u8 << 6u8) } else { f1 & !(1u8 << 6u8) };
        let f3 = if f2 & 0x10u8 == 0x10u8 { f2 | (1u8 << 5u8) } else { f2 & !(1u8 << 5u8) };
        let f4 = if f3 & 0x20u8 == 0x20u8 { f3 | (1u8 << 4u8) } else { f3 & !(1u8 << 4u8) };
        &&& ((f4 >> 7u8) & 1u8 == 1u8) == (lo / 16 == 0)
        &&& (f4 >> 6u8) & 1u8 == 0u8
        &&& ((f4 >> 5u8) & 1u8 == 1u8) == ((lo / 16) % 2 == 1)
        &&& ((f4 >> 4u8) & 1u8 == 1u8) == ((lo / 16) % 2 == 1)
        &&& f4 % 16 == 0
    }) by (bit_vector);
}

} // verus!
