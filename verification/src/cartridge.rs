use vstd::prelude::*;
use vstd::slice::slice_subrange;

verus! {

/// A cursor over the bytes of a ROM image.
pub struct RomReader<'a> {
    data: &'a [u8],
    cursor_pos: usize,
}

impl<'a> RomReader<'a> {
    /// The cursor never moves past the end of the data.
    #[verifier::type_invariant]
    spec fn cursor_in_data(&self) -> bool {
        self.cursor_pos <= self.data@.len()
    }

    /// The bytes being read.
    pub closed spec fn data(&self) -> Seq<u8> {
        self.data@
    }

    /// The position of the next byte to read.
    pub closed spec fn cursor(&self) -> int {
        self.cursor_pos as int
    }

    /// The cursor lies within the data; every reader satisfies this.
    pub open spec fn wf(&self) -> bool {
        0 <= self.cursor() <= self.data().len()
    }

    /// A reader at the start of `data`.
    pub fn new(data: &'a [u8]) -> (r: Self)
        ensures
            r.data() == data@,
            r.cursor() == 0,
            r.wf(),
    {
        RomReader { data, cursor_pos: 0 }
    }

    /// The next byte, moving past it; `None` at the end of the data, where the cursor stays.
    pub fn read_byte(&mut self) -> (r: Option<u8>)
        ensures
            old(self).wf(),
            final(self).wf(),
            final(self).data() == old(self).data(),
            old(self).cursor() < old(self).data().len() ==> {
                &&& r == Some(old(self).data()[old(self).cursor()])
                &&& final(self).cursor() == old(self).cursor() + 1
            },
            old(self).cursor() >= old(self).data().len() ==> {
                &&& r is None
                &&& final(self).cursor() == old(self).cursor()
            },
    {
        proof { use_type_invariant(&*self); }
        if self.cursor_pos < self.data.len() {
            let byte = self.data[self.cursor_pos];
            self.cursor_pos += 1;
            Some(byte)
        } else {
            None
        }
    }

    /// The next `len` bytes, moving past them; `None` when fewer remain, and
    /// the cursor stays.
    pub fn read_slice(&mut self, len: usize) -> (r: Option<&'a [u8]>)
        requires
            old(self).cursor() + len <= usize::MAX,
        ensures
            final(self).data() == old(self).data(),
            old(self).cursor() + len <= old(self).data().len() ==> {
                &&& r is Some
                &&& r->Some_0@ == old(self).data().subrange(old(self).cursor(), old(self).cursor() + len)
                &&& r->Some_0@.len() == len
                &&& final(self).cursor() == old(self).cursor() + len
            },
            old(self).cursor() + len > old(self).data().len() ==> {
                &&& r is None
                &&& final(self).cursor() == old(self).cursor()
            },
            old(self).wf(),
            final(self).wf(),
    {
        proof { use_type_invariant(&*self); }
        let end = self.cursor_pos + len;
        if end > self.data.len() {
            None
        } else {
            let slice = slice_subrange(self.data, self.cursor_pos, end);
            self.cursor_pos = end;
            Some(slice)
        }
    }
}

/// The cartridge header (bytes 0x104-0x133) of a ROM image; `None` when the image is shorter.
pub fn find_header<'a>(rom: &'a [u8]) -> (r: Option<&'a [u8]>)
    ensures
        rom@.len() >= 0x134 ==> r is Some && r->Some_0@ == rom@.subrange(0x104, 0x134),
        rom@.len() < 0x134 ==> r is None,
{
    if rom.len() >= 0x134 {
        Some(slice_subrange(rom, 0x104, 0x134))
    } else {
        None
    }
}

} // verus!
