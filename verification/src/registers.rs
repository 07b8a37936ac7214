use vstd::prelude::*;

verus! {

/// Bit position of the zero flag (Z) in the F register.
pub const ZERO_BIT: u8 = 7;
/// Bit position of the subtract flag (N) in the F register.
pub const SUBTRACT_BIT: u8 = 6;
/// Bit position of the half-carry flag (H) in the F register.
pub const HALF_CARRY_BIT: u8 = 5;
/// Bit position of the carry flag (C) in the F register.
pub const CARRY_BIT: u8 = 4;

/// Whether bit `i` of `x` is set.
pub open spec fn bit_of(x: u8, i: u8) -> bool {
    (x >> i) & 1u8 == 1u8
}

/// `x` with bit `i` set to `v`.
pub open spec fn with_bit(x: u8, i: u8, v: bool) -> u8 {
    if v {
        x | (1u8 << i)
    } else {
        x & !(1u8 << i)
    }
}

/// The 16-bit value formed by a high and a low byte.
pub open spec fn word(hi: u8, lo: u8) -> u16 {
    (hi as int * 256 + lo as int) as u16
}

/// The high byte of a 16-bit value.
pub open spec fn high_byte(v: u16) -> u8 {
    (v / 256) as u8
}

/// The low byte of a 16-bit value.
pub open spec fn low_byte(v: u16) -> u8 {
    (v % 256) as u8
}

/// An 8-bit register other than F.
#[derive(Clone, Copy, Debug, PartialEq, Eq, Structural)]
pub enum Reg {
    A,
    B,
    C,
    D,
    E,
    H,
    L,
}

/// A 16-bit register pair other than AF.
#[derive(Clone, Copy, Debug, PartialEq, Eq, Structural)]
pub enum Pair {
    BC,
    DE,
    HL,
}

/// A write through one of the register setters.
pub enum RegisterWrite {
    Zero(bool),
    Subtract(bool),
    HalfCarry(bool),
    Carry(bool),
    Bc(u16),
    De(u16),
    Hl(u16),
}

/// The bit of F that a write sets, if it sets one.
pub open spec fn written_flag_bit(w: RegisterWrite) -> Option<u8> {
    match w {
        RegisterWrite::Zero(_) => Some(ZERO_BIT),
        RegisterWrite::Subtract(_) => Some(SUBTRACT_BIT),
        RegisterWrite::HalfCarry(_) => Some(HALF_CARRY_BIT),
        RegisterWrite::Carry(_) => Some(CARRY_BIT),
        _ => None,
    }
}

/// The eight 8-bit registers of the processor; F holds the flags.
#[derive(Clone, Copy, Debug, PartialEq, Eq, Structural)]
pub struct Registers {
    pub a: u8,
    pub b: u8,
    pub c: u8,
    pub d: u8,
    pub e: u8,
    pub f: u8,
    pub h: u8,
    pub l: u8,
}

impl Registers {
    pub open spec fn bc(self) -> u16 {
        word(self.b, self.c)
    }

    pub open spec fn de(self) -> u16 {
        word(self.d, self.e)
    }

    pub open spec fn hl(self) -> u16 {
        word(self.h, self.l)
    }

    pub open spec fn zero(self) -> bool {
        bit_of(self.f, ZERO_BIT)
    }

    pub open spec fn subtract(self) -> bool {
        bit_of(self.f, SUBTRACT_BIT)
    }

    pub open spec fn half_carry(self) -> bool {
        bit_of(self.f, HALF_CARRY_BIT)
    }

    pub open spec fn carry(self) -> bool {
        bit_of(self.f, CARRY_BIT)
    }

    pub open spec fn reg(self, x: Reg) -> u8 {
        match x {
            Reg::A => self.a,
            Reg::B => self.b,
            Reg::C => self.c,
            Reg::D => self.d,
            Reg::E => self.e,
            Reg::H => self.h,
            Reg::L => self.l,
        }
    }

    pub open spec fn with_reg(self, x: Reg, v: u8) -> Registers {
        match x {
            Reg::A => Registers { a: v, ..self },
            Reg::B => Registers { b: v, ..self },
            Reg::C => Registers { c: v, ..self },
            Reg::D => Registers { d: v, ..self },
            Reg::E => Registers { e: v, ..self },
            Reg::H => Registers { h: v, ..self },
            Reg::L => Registers { l: v, ..self },
        }
    }

    pub open spec fn pair(self, p: Pair) -> u16 {
        match p {
            Pair::BC => self.bc(),
            Pair::DE => self.de(),
            Pair::HL => self.hl(),
        }
    }

    pub open spec fn with_pair(self, p: Pair, v: u16) -> Registers {
        match p {
            Pair::BC => Registers { b: high_byte(v), c: low_byte(v), ..self },
            Pair::DE => Registers { d: high_byte(v), e: low_byte(v), ..self },
            Pair::HL => Registers { h: high_byte(v), l: low_byte(v), ..self },
        }
    }

    /// F after setting Z, N, H and C in that order.
    pub open spec fn flags_znhc(f: u8, z: bool, n: bool, h: bool, c: bool) -> u8 {
        with_bit(with_bit(with_bit(with_bit(f, ZERO_BIT, z), SUBTRACT_BIT, n), HALF_CARRY_BIT, h), CARRY_BIT, c)
    }

    /// F after setting Z, N and H in that order.
    pub open spec fn flags_znh(f: u8, z: bool, n: bool, h: bool) -> u8 {
        with_bit(with_bit(with_bit(f, ZERO_BIT, z), SUBTRACT_BIT, n), HALF_CARRY_BIT, h)
    }

    /// The registers after a write through a setter.
    pub open spec fn after(self, w: RegisterWrite) -> Registers {
        match w {
            RegisterWrite::Zero(v) => Registers { f: with_bit(self.f, ZERO_BIT, v), ..self },
            RegisterWrite::Subtract(v) => Registers { f: with_bit(self.f, SUBTRACT_BIT, v), ..self },
            RegisterWrite::HalfCarry(v) => Registers { f: with_bit(self.f, HALF_CARRY_BIT, v), ..self },
            RegisterWrite::Carry(v) => Registers { f: with_bit(self.f, CARRY_BIT, v), ..self },
            RegisterWrite::Bc(v) => self.with_pair(Pair::BC, v),
            RegisterWrite::De(v) => self.with_pair(Pair::DE, v),
            RegisterWrite::Hl(v) => self.with_pair(Pair::HL, v),
        }
    }

    /// The registers after a sequence of writes through setters, first to last.
    pub open spec fn after_all(self, ws: Seq<RegisterWrite>) -> Registers
        decreases ws.len(),
    {
        if ws.len() == 0 {
            self
        } else {
            self.after(ws[0]).after_all(ws.drop_first())
        }
    }

    /// All registers cleared.
    pub fn new() -> (r: Self)
        ensures
            r == (Registers { a: 0, b: 0, c: 0, d: 0, e: 0, f: 0, h: 0, l: 0 }),
    {
        Registers { a: 0x00, b: 0x00, c: 0x00, d: 0x00, e: 0x00, f: 0x00, h: 0x00, l: 0x00 }
    }

    pub fn get_bc(&self) -> (r: u16)
        ensures
            r == self.bc(),
            r == self.b * 256 + self.c,
    {
        proof { lemma_register_bits(); }
        (self.b as u16) << 8 | self.c as u16
    }

    pub fn set_bc(&mut self, value: u16)
        ensures
            *final(self) == old(self).after(RegisterWrite::Bc(value)),
            *final(self) == (Registers { b: high_byte(value), c: low_byte(value), ..*old(self) }),
    {
        proof { lemma_register_bits(); }
        self.b = (value >> 8) as u8;
        self.c = value as u8 & 0xFF;
    }

    pub fn get_de(&self) -> (r: u16)
        ensures
            r == self.de(),
            r == self.d * 256 + self.e,
    {
        proof { lemma_register_bits(); }
        (self.d as u16) << 8 | self.e as u16
    }

    pub fn set_de(&mut self, value: u16)
        ensures
            *final(self) == old(self).after(RegisterWrite::De(value)),
            *final(self) == (Registers { d: high_byte(value), e: low_byte(value), ..*old(self) }),
    {
        proof { lemma_register_bits(); }
        self.d = (value >> 8) as u8;
        self.e = value as u8 & 0xFF;
    }

    pub fn get_hl(&self) -> (r: u16)
        ensures
            r == self.hl(),
            r == self.h * 256 + self.l,
    {
        proof { lemma_register_bits(); }
        (self.h as u16) << 8 | self.l as u16
    }

    pub fn set_hl(&mut self, value: u16)
        ensures
            *final(self) == old(self).after(RegisterWrite::Hl(value)),
            *final(self) == (Registers { h: high_byte(value), l: low_byte(value), ..*old(self) }),
    {
        proof { lemma_register_bits(); }
        self.h = (value >> 8) as u8;
        self.l = value as u8 & 0xFF;
    }

    pub(crate) fn get(&self, x: Reg) -> (v: u8)
        ensures
            v == self.reg(x),
    {
        match x {
            Reg::A => self.a,
            Reg::B => self.b,
            Reg::C => self.c,
            Reg::D => self.d,
            Reg::E => self.e,
            Reg::H => self.h,
            Reg::L => self.l,
        }
    }

    pub(crate) fn set(&mut self, x: Reg, v: u8)
        ensures
            *final(self) == old(self).with_reg(x, v),
    {
        match x {
            Reg::A => self.a = v,
            Reg::B => self.b = v,
            Reg::C => self.c = v,
            Reg::D => self.d = v,
            Reg::E => self.e = v,
            Reg::H => self.h = v,
            Reg::L => self.l = v,
        }
    }

    pub(crate) fn get_pair(&self, p: Pair) -> (v: u16)
        ensures
            v == self.pair(p),
    {
        match p {
            Pair::BC => self.get_bc(),
            Pair::DE => self.get_de(),
            Pair::HL => self.get_hl(),
        }
    }

    pub(crate) fn set_pair(&mut self, p: Pair, v: u16)
        ensures
            *final(self) == old(self).with_pair(p, v),
    {
        match p {
            Pair::BC => self.set_bc(v),
            Pair::DE => self.set_de(v),
            Pair::HL => self.set_hl(v),
        }
    }

    /// Sets Z, N, H and C in that order.
    pub(crate) fn set_flags(&mut self, z: bool, n: bool, h: bool, c: bool)
        ensures
            *final(self) == (Registers { f: Registers::flags_znhc(old(self).f, z, n, h, c), ..*old(self) }),
    {
        self.set_zero_flag(z);
        self.set_subtract_flag(n);
        self.set_half_carry_flag(h);
        self.set_carry_flag(c);
    }

    pub fn set_af(&mut self, value: u16)
        ensures
            *final(self) == (Registers { a: high_byte(value), f: low_byte(value), ..*old(self) }),
    {
        proof { lemma_register_bits(); }
        self.a = (value >> 8) as u8;
        self.f = value as u8 & 0xFF;
    }

    pub fn set_zero_flag(&mut self, value: bool)
        ensures
            *final(self) == old(self).after(RegisterWrite::Zero(value)),
            *final(self) == (Registers { f: with_bit(old(self).f, ZERO_BIT, value), ..*old(self) }),
    {
        proof { lemma_register_bits(); }
        if value {
            self.f |= 0b1000_0000;
        } else {
            self.f &= 0b0111_1111;
        }
    }

    pub fn get_zero_flag(&self) -> (r: bool)
        ensures
            r == self.zero(),
    {
        proof { lemma_register_bits(); }
        (self.f & 0b1000_0000) != 0
    }

    pub fn set_subtract_flag(&mut self, value: bool)
        ensures
            *final(self) == old(self).after(RegisterWrite::Subtract(value)),
            *final(self) == (Registers { f: with_bit(old(self).f, SUBTRACT_BIT, value), ..*old(self) }),
    {
        proof { lemma_register_bits(); }
        if value {
            self.f |= 0b0100_0000;
        } else {
            self.f &= 0b1011_1111;
        }
    }

    pub fn get_subtract_flag(&self) -> (r: bool)
        ensures
            r == self.subtract(),
    {
        proof { lemma_register_bits(); }
        (self.f & 0b0100_0000) != 0
    }

    pub fn set_half_carry_flag(&mut self, value: bool)
        ensures
            *final(self) == old(self).after(RegisterWrite::HalfCarry(value)),
            *final(self) == (Registers { f: with_bit(old(self).f, HALF_CARRY_BIT, value), ..*old(self) }),
    {
        proof { lemma_register_bits(); }
        if value {
            self.f |= 0b0010_0000;
        } else {
            self.f &= 0b1101_1111;
        }
    }

    pub fn get_half_carry_flag(&self) -> (r: bool)
        ensures
            r == self.half_carry(),
    {
        proof { lemma_register_bits(); }
        (self.f & 0b0010_0000) != 0
    }

    pub fn set_carry_flag(&mut self, value: bool)
        ensures
            *final(self) == old(self).after(RegisterWrite::Carry(value)),
            *final(self) == (Registers { f: with_bit(old(self).f, CARRY_BIT, value), ..*old(self) }),
    {
        proof { lemma_register_bits(); }
        if value {
            self.f |= 0b0001_0000;
        } else {
            self.f &= 0b1110_1111;
        }
    }

    pub fn get_carry_flag(&self) -> (r: bool)
        ensures
            r == self.carry(),
    {
        proof { lemma_register_bits(); }
        (self.f & 0b0001_0000) != 0
    }
}

/// Facts about the byte and word operations that the register accessors use.
pub(crate) proof fn lemma_register_bits()
    by (bit_vector)
    ensures
        forall|hi: u8, lo: u8| #[trigger] ((hi as u16) << 8u16 | lo as u16) == hi * 256 + lo,
        forall|v: u16| #[trigger] ((v >> 8u16) as u8) == v / 256,
        forall|v: u16| #[trigger] ((v as u8) & 0xFFu8) == v % 256,
        forall|f: u8| #[trigger] (f | 0x80u8) == (f | (1u8 << 7u8)),
        forall|f: u8| #[trigger] (f | 0x40u8) == (f | (1u8 << 6u8)),
        forall|f: u8| #[trigger] (f | 0x20u8) == (f | (1u8 << 5u8)),
        forall|f: u8| #[trigger] (f | 0x10u8) == (f | (1u8 << 4u8)),
        forall|f: u8| #[trigger] (f & 0x7Fu8) == (f & !(1u8 << 7u8)),
        forall|f: u8| #[trigger] (f & 0xBFu8) == (f & !(1u8 << 6u8)),
        forall|f: u8| #[trigger] (f & 0xDFu8) == (f & !(1u8 << 5u8)),
        forall|f: u8| #[trigger] (f & 0xEFu8) == (f & !(1u8 << 4u8)),
        forall|f: u8| (#[trigger] (f & 0x80u8) != 0u8) == ((f >> 7u8) & 1u8 == 1u8),
        forall|f: u8| (#[trigger] (f & 0x40u8) != 0u8) == ((f >> 6u8) & 1u8 == 1u8),
        forall|f: u8| (#[trigger] (f & 0x20u8) != 0u8) == ((f >> 5u8) & 1u8 == 1u8),
        forall|f: u8| (#[trigger] (f & 0x10u8) != 0u8) == ((f >> 4u8) & 1u8 == 1u8),
{
}

/// Writing a 16-bit register pair and reading it back gives the value written.
pub proof fn lemma_pair_write_read(v: u16)
    ensures
        word(high_byte(v), low_byte(v)) == v,
{
}

/// Reading a 16-bit register pair and writing it back leaves both halves unchanged.
pub proof fn lemma_pair_read_write(hi: u8, lo: u8)
    ensures
        high_byte(word(hi, lo)) == hi,
        low_byte(word(hi, lo)) == lo,
{
}

/// Setting one bit of a byte gives that bit the new value and leaves every other bit as it was.
pub proof fn lemma_with_bit(x: u8, i: u8, j: u8, v: bool)
    requires
        i < 8,
        j < 8,
    ensures
        bit_of(with_bit(x, i, v), j) == (if i == j { v } else { bit_of(x, j) }),
{
    if v {
        assert(i < 8u8 && j < 8u8 ==> (((x | (1u8 << i)) >> j) & 1u8 == 1u8) == (if i == j { true } else { (x >> j) & 1u8 == 1u8 })) by (bit_vector);
    } else {
        assert(i < 8u8 && j < 8u8 ==> (((x & !(1u8 << i)) >> j) & 1u8 == 1u8) == (if i == j { false } else { (x >> j) & 1u8 == 1u8 })) by (bit_vector);
    }
}

/// A flag keeps its value through any writes that do not set it.
pub proof fn lemma_flag_kept(r: Registers, bit: u8, ws: Seq<RegisterWrite>)
    requires
        4 <= bit < 8,
        forall|k: int| 0 <= k < ws.len() ==> written_flag_bit(#[trigger] ws[k]) != Some(bit),
    ensures
        bit_of(r.after_all(ws).f, bit) == bit_of(r.f, bit),
    decreases ws.len(),
{
    if ws.len() > 0 {
        let w = ws[0];
        assert(written_flag_bit(ws[0]) != Some(bit));
        match w {
            RegisterWrite::Zero(v) => lemma_with_bit(r.f, ZERO_BIT, bit, v),
            RegisterWrite::Subtract(v) => lemma_with_bit(r.f, SUBTRACT_BIT, bit, v),
            RegisterWrite::HalfCarry(v) => lemma_with_bit(r.f, HALF_CARRY_BIT, bit, v),
            RegisterWrite::Carry(v) => lemma_with_bit(r.f, CARRY_BIT, bit, v),
            _ => {},
        }
        let rest = ws.drop_first();
        assert forall|k: int| 0 <= k < rest.len() implies written_flag_bit(#[trigger] rest[k]) != Some(bit) by {
            assert(rest[k] == ws[k + 1]);
        }
        lemma_flag_kept(r.after(w), bit, rest);
    }
}

/// After the zero flag is set to `v`, it reads `v` through any later writes
/// to the other flags or to BC, DE and HL.
pub proof fn lemma_zero_flag_survives(r: Registers, v: bool, ws: Seq<RegisterWrite>)
    requires
        forall|k: int| 0 <= k < ws.len() ==> !(#[trigger] ws[k] is Zero),
    ensures
        r.after(RegisterWrite::Zero(v)).after_all(ws).zero() == v,
{
    assert forall|k: int| 0 <= k < ws.len() implies written_flag_bit(#[trigger] ws[k]) != Some(ZERO_BIT) by {
        assert(!(ws[k] is Zero));
    }
    lemma_with_bit(r.f, ZERO_BIT, ZERO_BIT, v);
    lemma_flag_kept(r.after(RegisterWrite::Zero(v)), ZERO_BIT, ws);
}

/// After the carry flag is set to `v`, it reads `v` through any later writes
/// to the other flags or to BC, DE and HL.
pub proof fn lemma_carry_flag_survives(r: Registers, v: bool, ws: Seq<RegisterWrite>)
    requires
        forall|k: int| 0 <= k < ws.len() ==> !(#[trigger] ws[k] is Carry),
    ensures
        r.after(RegisterWrite::Carry(v)).after_all(ws).carry() == v,
{
    assert forall|k: int| 0 <= k < ws.len() implies written_flag_bit(#[trigger] ws[k]) != Some(CARRY_BIT) by {
        assert(!(ws[k] is Carry));
    }
    lemma_with_bit(r.f, CARRY_BIT, CARRY_BIT, v);
    lemma_flag_kept(r.after(RegisterWrite::Carry(v)), CARRY_BIT, ws);
}

} // verus!
