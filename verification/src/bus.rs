use vstd::prelude::*;

verus! {

/// Size of the cartridge ROM window (0x0000-0x7FFF).
pub const ROM_SIZE: usize = 0x8000;
/// Size of the work RAM (0xC000-0xDFFF).
pub const WRAM_SIZE: usize = 0x2000;
/// Size of the high RAM (0xFF80-0xFFFE).
pub const HRAM_SIZE: usize = 127;

/// The state of the memory bus as mathematical sequences.
#[verifier::ext_equal]
pub struct BusView {
    pub rom: Seq<u8>,
    pub wram: Seq<u8>,
    pub hram: Seq<u8>,
    pub ie: u8,
}

/// Whether a write to `addr` is stored (work RAM, high RAM or the interrupt-enable register).
pub open spec fn is_writable(addr: u16) -> bool {
    ||| 0xC000 <= addr <= 0xDFFF
    ||| 0xFF80 <= addr <= 0xFFFE
    ||| addr == 0xFFFF
}

impl BusView {
    /// Each memory holds as many bytes as its address range.
    pub open spec fn wf(self) -> bool {
        &&& self.rom.len() == ROM_SIZE
        &&& self.wram.len() == WRAM_SIZE
        &&& self.hram.len() == HRAM_SIZE
    }

    /// The byte that a read of `addr` gives.
    pub open spec fn read(self, addr: u16) -> u8 {
        if addr <= 0x7FFF {
            self.rom[addr as int]
        } else if 0xC000 <= addr <= 0xDFFF {
            self.wram[addr - 0xC000]
        } else if addr == 0xFF01 || addr == 0xFF02 {
            0x00
        } else if addr == 0xFF44 {
            0x90
        } else if 0xFF80 <= addr <= 0xFFFE {
            self.hram[addr - 0xFF80]
        } else if addr == 0xFFFF {
            self.ie
        } else {
            // video RAM, external RAM, echo RAM, sprite memory, unusable memory, other I/O
            0xFF
        }
    }

    /// The state after writing `value` to `addr`; writes elsewhere than the
    /// writable regions are dropped.
    pub open spec fn write(self, addr: u16, value: u8) -> BusView {
        if 0xC000 <= addr <= 0xDFFF {
            BusView { wram: self.wram.update(addr - 0xC000, value), ..self }
        } else if 0xFF80 <= addr <= 0xFFFE {
            BusView { hram: self.hram.update(addr - 0xFF80, value), ..self }
        } else if addr == 0xFFFF {
            BusView { ie: value, ..self }
        } else {
            self
        }
    }

    /// The byte that a write of `value` to `addr` sends out over the serial
    /// port: writing 0x81 to the serial control register (0xFF02) sends the
    /// byte held in the serial data register (0xFF01).
    pub open spec fn serial_output(self, addr: u16, value: u8) -> Option<u8> {
        if addr == 0xFF02 && value == 0x81 {
            Some(self.read(0xFF01))
        } else {
            None
        }
    }
}

/// The memory map: cartridge ROM, work RAM, high RAM and the interrupt-enable register.
pub struct MemoryBus {
    pub rom: [u8; 0x8000],
    pub wram: [u8; 0x2000],
    pub hram: [u8; 127],
    pub ie_register: u8,
}

impl View for MemoryBus {
    type V = BusView;

    open spec fn view(&self) -> BusView {
        BusView { rom: self.rom@, wram: self.wram@, hram: self.hram@, ie: self.ie_register }
    }
}

impl MemoryBus {
    /// A bus with every memory cleared.
    pub fn new() -> (bus: Self)
        ensures
            bus@.wf(),
            bus@.rom == Seq::new(ROM_SIZE as nat, |i: int| 0u8),
            bus@.wram == Seq::new(WRAM_SIZE as nat, |i: int| 0u8),
            bus@.hram == Seq::new(HRAM_SIZE as nat, |i: int| 0u8),
            bus@.ie == 0,
    {
        let bus = MemoryBus { rom: [0; 0x8000], wram: [0; 0x2000], hram: [0; 127], ie_register: 0 };
        assert(bus@.rom =~= Seq::new(ROM_SIZE as nat, |i: int| 0u8));
        assert(bus@.wram =~= Seq::new(WRAM_SIZE as nat, |i: int| 0u8));
        assert(bus@.hram =~= Seq::new(HRAM_SIZE as nat, |i: int| 0u8));
        bus
    }

    /// Reads the byte at `address`.
    pub fn read_byte(&self, address: u16) -> (r: u8)
        ensures
            r == self@.read(address),
    {
        match address {
            0x0000..=0x7FFF => self.rom[address as usize],
            0x8000..=0x9FFF => 0xFF,  // video RAM (not emulated)
            0xA000..=0xBFFF => 0xFF,  // external RAM on the cartridge
            0xC000..=0xDFFF => self.wram[(address - 0xC000) as usize],
            0xE000..=0xFDFF => 0xFF,  // echo RAM
            0xFE00..=0xFE9F => 0xFF,  // sprite attribute memory
            0xFEA0..=0xFEFF => 0xFF,  // unusable
            0xFF01 => 0x00,
            0xFF02 => 0x00,
            0xFF44 => 0x90,
            0xFF00..=0xFF7F => 0xFF,
            0xFF80..=0xFFFE => self.hram[(address - 0xFF80) as usize],
            0xFFFF => self.ie_register,
        }
    }

    /// Writes `value` to `address` and returns the byte sent over the serial
    /// port by that write, if any.
    pub fn write_byte(&mut self, address: u16, value: u8) -> (serial: Option<u8>)
        ensures
            final(self)@ == old(self)@.write(address, value),
            serial == old(self)@.serial_output(address, value),
    {
        match address {
            0x0000..=0x7FFF => None,  // ROM is read-only
            0x8000..=0x9FFF => None,
            0xA000..=0xBFFF => None,
            0xC000..=0xDFFF => {
                self.wram[(address - 0xC000) as usize] = value;
                None
            },
            0xE000..=0xFDFF => None,
            0xFE00..=0xFE9F => None,
            0xFEA0..=0xFEFF => None,
            0xFF01 => None,
            0xFF02 => {
                if value == 0x81 {
                    Some(self.read_byte(0xFF01))
                } else {
                    None
                }
            },
            0xFF44 => None,
            0xFF00..=0xFF7F => None,
            0xFF80..=0xFFFE => {
                self.hram[(address - 0xFF80) as usize] = value;
                None
            },
            0xFFFF => {
                self.ie_register = value;
                None
            },
        }
    }

    /// Copies `rom_data` into the ROM window; bytes beyond its size are ignored.
    pub fn load_rom(&mut self, rom_data: &[u8])
        ensures
            final(self)@ == (BusView {
                rom: Seq::new(ROM_SIZE as nat, |i: int|
                    if i < rom_data@.len() { rom_data@[i] } else { old(self)@.rom[i] }),
                ..old(self)@
            }),
    {
        let mut i: usize = 0;
        while i < rom_data.len()
            invariant
                0 <= i <= rom_data@.len(),
                self.wram@ == old(self).wram@,
                self.hram@ == old(self).hram@,
                self.ie_register == old(self).ie_register,
                forall|k: int| 0 <= k < ROM_SIZE ==> #[trigger] self.rom@[k]
                    == if k < i { rom_data@[k] } else { old(self).rom@[k] },
            decreases rom_data@.len() - i,
        {
            if i < self.rom.len() {
                self.rom[i] = rom_data[i];
            }
            i += 1;
        }
        assert(self@.rom =~= Seq::new(ROM_SIZE as nat, |k: int|
            if k < rom_data@.len() { rom_data@[k] } else { old(self)@.rom[k] }));
    }
}

/// The bus view of a real bus is well formed.
pub proof fn lemma_bus_wf(bus: &MemoryBus)
    ensures
        bus@.wf(),
{
}

/// A write to a writable address is read back; a write to any other address changes nothing.
pub proof fn lemma_read_after_write(b: BusView, addr: u16, value: u8)
    requires
        b.wf(),
    ensures
        is_writable(addr) ==> b.write(addr, value).read(addr) == value,
        !is_writable(addr) ==> b.write(addr, value) == b,
        b.write(addr, value).wf(),
{
}

/// A write leaves what every other address reads unchanged.
pub proof fn lemma_write_other_address(b: BusView, addr: u16, other: u16, value: u8)
    requires
        b.wf(),
        other != addr,
    ensures
        b.write(addr, value).read(other) == b.read(other),
{
}

/// After loading a ROM image, reading an address of the ROM window gives the image's byte there.
pub proof fn lemma_read_loaded_rom(b: BusView, rom_data: Seq<u8>, addr: u16)
    requires
        b.wf(),
        addr < rom_data.len(),
        addr <= 0x7FFF,
    ensures
        (BusView {
            rom: Seq::new(ROM_SIZE as nat, |i: int| if i < rom_data.len() { rom_data[i] } else { b.rom[i] }),
            ..b
        }).read(addr) == rom_data[addr as int],
{
}

} // verus!
