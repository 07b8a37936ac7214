use vstd::prelude::*;

verus! {

/// A byte-addressed memory over the whole 16-bit address space.
pub trait MemoryBus {
    /// The byte stored at `addr`.
    spec fn byte_at(&self, addr: u16) -> u8;

    /// Reads the byte at `addr`.
    fn read(&self, addr: u16) -> (r: u8)
        ensures
            r == self.byte_at(addr),
    ;

    /// Stores `val` at `addr`, leaving every other address unchanged.
    fn write(&mut self, addr: u16, val: u8)
        ensures
            final(self).byte_at(addr) == val,
            forall|a: u16| a != addr ==> final(self).byte_at(a) == old(self).byte_at(a),
    ;
}

/// A flat 64 KiB memory: the lower half is the ROM area, the upper half RAM.
pub struct GameBoyMem {
    pub rom: [u8; 0x8000],
    pub ram: [u8; 0x8000],
}

impl GameBoyMem {
    /// A memory with every byte cleared.
    pub fn new() -> (m: Self)
        ensures
            forall|a: u16| m.byte_at(a) == 0,
    {
        let m = GameBoyMem { rom: [0; 0x8000], ram: [0; 0x8000] };
        assert forall|a: u16| m.byte_at(a) == 0 by {
            if a <= 0x7FFF {
                assert(m.rom@[a as int] == 0);
            } else {
                assert(m.ram@[a - 0x8000] == 0);
            }
        }
        m
    }
}

impl MemoryBus for GameBoyMem {
    open spec fn byte_at(&self, addr: u16) -> u8 {
        if addr <= 0x7FFF {
            self.rom@[addr as int]
        } else {
            self.ram@[addr - 0x8000]
        }
    }

    fn read(&self, addr: u16) -> (r: u8) {
        match addr {
            0x0000..=0x7FFF => self.rom[addr as usize],
            0x8000..=0xFFFF => self.ram[(addr - 0x8000) as usize],
        }
    }

    fn write(&mut self, addr: u16, val: u8) {
        match addr {
            0x0000..=0x7FFF => self.rom[addr as usize] = val,
            0x8000..=0xFFFF => self.ram[(addr - 0x8000) as usize] = val,
        }
    }
}

/// The ASCII code of an upper-case hexadecimal digit.
pub open spec fn hex_digit(d: u8) -> u8 {
    if d < 10 {
        (48 + d) as u8
    } else {
        (55 + d) as u8
    }
}

/// The text of a byte as two upper-case hexadecimal digits and a space.
pub open spec fn hex_byte_text(b: u8) -> Seq<u8> {
    seq![hex_digit(b / 16), hex_digit(b % 16), 32u8]
}

/// The text of the first `n` bytes of a memory.
pub open spec fn dump_text<M: MemoryBus>(m: &M, n: nat) -> Seq<u8>
    decreases n,
{
    if n == 0 {
        Seq::empty()
    } else {
        dump_text(m, (n - 1) as nat) + hex_byte_text(m.byte_at((n - 1) as u16))
    }
}

fn hex_digit_exec(d: u8) -> (c: u8)
    requires
        d < 16,
    ensures
        c == hex_digit(d),
{
    if d < 10 {
        48 + d
    } else {
        55 + d
    }
}

impl GameBoyMem {
    /// The first sixteen bytes as ASCII text, each as two upper-case
    /// hexadecimal digits followed by a space.
    pub fn display_bytes(&self) -> (text: Vec<u8>)
        ensures
            text@ == dump_text(self, 16),
    {
        let mut text: Vec<u8> = Vec::new();
        let mut n: u16 = 0;
        while n <= 15
            invariant
                n <= 16,
                text@ == dump_text(self, n as nat),
            decreases 16 - n,
        {
            let b = self.read(n);
            text.push(hex_digit_exec(b / 16));
            text.push(hex_digit_exec(b % 16));
            text.push(32);
            assert(text@ =~= dump_text(self, n as nat) + hex_byte_text(self.byte_at(n)));
            n += 1;
        }
        text
    }
}

/// Writes `val` to the `count` addresses starting at `start`.
pub fn fill<M: MemoryBus>(mem: &mut M, start: u16, val: u8, count: u16)
    requires
        start + count <= 0x10000,
    ensures
        forall|a: u16|
            #![trigger final(mem).byte_at(a)]
            final(mem).byte_at(a) == if start <= a < start + count {
                val
            } else {
                old(mem).byte_at(a)
            },
{
    let mut n: u16 = 0;
    while n < count
        invariant
            n <= count,
            start + count <= 0x10000,
            forall|a: u16|
                #![trigger mem.byte_at(a)]
                mem.byte_at(a) == if start <= a < start + n {
                    val
                } else {
                    old(mem).byte_at(a)
                },
        decreases count - n,
    {
        let input = start + n;
        mem.write(input, val);
        n += 1;
    }
}

} // verus!
