use vstd::prelude::*;

verus! {

pub const SCREEN_WIDTH: u32 = 160;
pub const SCREEN_HEIGHT: u32 = 144;
pub const SCREEN_PIXELS: u32 = SCREEN_WIDTH * SCREEN_HEIGHT;

/// The picture unit's frame of 160 x 144 colour values.
pub struct PPU {
    pub framebuffer: [u32; 23040],
}

impl PPU {
    /// A black frame.
    pub fn new() -> (p: Self)
        ensures
            p.framebuffer@ == Seq::new(SCREEN_PIXELS as nat, |i: int| 0u32),
    {
        let p = PPU { framebuffer: [0; 23040] };
        assert(p.framebuffer@ =~= Seq::new(SCREEN_PIXELS as nat, |i: int| 0u32));
        p
    }

    /// Colours the frame from raw pixel values: pixel `i` becomes `palette`
    /// applied to `raw_pixels[i]`; raw pixels beyond the frame are ignored and
    /// pixels beyond the raw data keep their colour.
    pub fn apply_palette(&mut self, raw_pixels: &[u8], palette: impl Fn(u8) -> u32)
        requires
            forall|i: int| 0 <= i < raw_pixels@.len() && i < SCREEN_PIXELS ==> call_requires(palette, (raw_pixels@[i],)),
        ensures
            forall|i: int| 0 <= i < SCREEN_PIXELS ==> {
                if i < raw_pixels@.len() {
                    call_ensures(palette, (raw_pixels@[i],), #[trigger] final(self).framebuffer@[i])
                } else {
                    final(self).framebuffer@[i] == old(self).framebuffer@[i]
                }
            },
    {
        let mut i: usize = 0;
        while i < raw_pixels.len()
            invariant
                i <= raw_pixels@.len(),
                forall|k: int| 0 <= k < raw_pixels@.len() && k < SCREEN_PIXELS ==> call_requires(palette, (raw_pixels@[k],)),
                forall|k: int| 0 <= k < SCREEN_PIXELS ==> {
                    if k < i && k < raw_pixels@.len() {
                        call_ensures(palette, (raw_pixels@[k],), #[trigger] self.framebuffer@[k])
                    } else {
                        self.framebuffer@[k] == old(self).framebuffer@[k]
                    }
                },
            decreases raw_pixels@.len() - i,
        {
            if i < self.framebuffer.len() {
                self.framebuffer[i] = palette(raw_pixels[i]);
            }
            i += 1;
        }
    }
}

/// Length in bytes of a frame of RGBA pixels.
pub const FRAME_BYTES: usize = 92160;

/// A frame of RGBA pixels, four bytes per pixel.
pub struct FrameBuffer {
    buffer: [u8; 92160],
}

/// The position in the buffer of the first byte of pixel (x, y).
pub open spec fn pixel_index(x: u8, y: u8) -> int {
    (y * SCREEN_WIDTH + x) * 4
}

/// The word formed by four bytes, the first the least significant.
pub open spec fn le_word(b0: u8, b1: u8, b2: u8, b3: u8) -> u32 {
    (b0 + 256 * b1 + 65536 * b2 + 16777216 * b3) as u32
}

/// The word formed by four bytes, the first the most significant.
pub open spec fn be_word(b0: u8, b1: u8, b2: u8, b3: u8) -> u32 {
    le_word(b3, b2, b1, b0)
}

/// Builds a word from four bytes in the machine's native byte order.
/// `u32::from_ne_bytes` gives the little-endian word on a little-endian
/// machine and the big-endian word on a big-endian one; which of the two
/// the machine is, is left unsaid.
#[verifier::external_body]
fn u32_from_ne_bytes(b0: u8, b1: u8, b2: u8, b3: u8) -> (r: u32)
    ensures
        r == le_word(b0, b1, b2, b3) || r == be_word(b0, b1, b2, b3),
{
    u32::from_ne_bytes([b0, b1, b2, b3])
}

/// The little-endian word of four bytes, computed.
fn le_word_exec(b0: u8, b1: u8, b2: u8, b3: u8) -> (w: u32)
    ensures
        w == le_word(b0, b1, b2, b3),
{
    b0 as u32 + 256 * (b1 as u32) + 65536 * (b2 as u32) + 16777216 * (b3 as u32)
}

impl FrameBuffer {
    /// The bytes of the frame.
    pub closed spec fn bytes(&self) -> Seq<u8> {
        self.buffer@
    }

    /// A frame with every byte cleared.
    pub fn new() -> (fb: Self)
        ensures
            fb.bytes() == Seq::new(FRAME_BYTES as nat, |i: int| 0u8),
    {
        let fb = Self { buffer: [0; 92160] };
        assert(fb.bytes() =~= Seq::new(FRAME_BYTES as nat, |i: int| 0u8));
        fb
    }

    /// Colours pixel (x, y) with red, green and blue, fully opaque.
    pub fn set_pixel(&mut self, x: u8, y: u8, r: u8, g: u8, b: u8)
        requires
            pixel_index(x, y) + 3 < FRAME_BYTES,
        ensures
            old(self).bytes().len() == FRAME_BYTES,
            final(self).bytes() == old(self).bytes()
                .update(pixel_index(x, y), r)
                .update(pixel_index(x, y) + 1, g)
                .update(pixel_index(x, y) + 2, b)
                .update(pixel_index(x, y) + 3, 255u8),
    {
        let x_usize = x as usize;
        let y_usize = y as usize;
        let index = (y_usize * SCREEN_WIDTH as usize + x_usize) * 4;
        self.buffer[index] = r;
        self.buffer[index + 1] = g;
        self.buffer[index + 2] = b;
        self.buffer[index + 3] = 255;
    }

    /// The frame as one word per pixel, each word made of the pixel's four
    /// bytes in the machine's native byte order: all words are the
    /// little-endian reading of their bytes, or all are the big-endian one.
    pub fn as_u32_slice(&self) -> (words: Vec<u32>)
        ensures
            self.bytes().len() == FRAME_BYTES,
            words@.len() == FRAME_BYTES / 4,
            ({
                let bs = self.bytes();
                ||| forall|i: int| 0 <= i < words@.len() ==>
                    #[trigger] words@[i] == le_word(bs[4 * i], bs[4 * i + 1], bs[4 * i + 2], bs[4 * i + 3])
                ||| forall|i: int| 0 <= i < words@.len() ==>
                    #[trigger] words@[i] == be_word(bs[4 * i], bs[4 * i + 1], bs[4 * i + 2], bs[4 * i + 3])
            }),
    {
        words_from_probe(&self.buffer, u32_from_ne_bytes(1, 0, 0, 0))
    }
}

/// The words of a frame, given `probe`, the native-order word of the bytes
/// 1, 0, 0, 0: when it is 1 the machine is little-endian and each word is the
/// little-endian reading of its four bytes; otherwise each is the big-endian one.
pub fn words_from_probe(bytes: &[u8; 92160], probe: u32) -> (words: Vec<u32>)
    ensures
        words@.len() == FRAME_BYTES / 4,
        probe == 1 ==> forall|i: int| 0 <= i < words@.len() ==>
            #[trigger] words@[i] == le_word(bytes@[4 * i], bytes@[4 * i + 1], bytes@[4 * i + 2], bytes@[4 * i + 3]),
        probe != 1 ==> forall|i: int| 0 <= i < words@.len() ==>
            #[trigger] words@[i] == be_word(bytes@[4 * i], bytes@[4 * i + 1], bytes@[4 * i + 2], bytes@[4 * i + 3]),
{
    let little = probe == 1;
    let len = bytes.len() / 4;
    let mut words: Vec<u32> = Vec::new();
    let mut i: usize = 0;
    while i < len
        invariant
            len == FRAME_BYTES / 4,
            little == (probe == 1),
            i <= len,
            words@.len() == i,
            forall|k: int| 0 <= k < i ==> {
                let bs = bytes@;
                #[trigger] words@[k] == if little {
                    le_word(bs[4 * k], bs[4 * k + 1], bs[4 * k + 2], bs[4 * k + 3])
                } else {
                    be_word(bs[4 * k], bs[4 * k + 1], bs[4 * k + 2], bs[4 * k + 3])
                }
            },
        decreases len - i,
    {
        let base = 4 * i;
        let (b0, b1, b2, b3) = (bytes[base], bytes[base + 1], bytes[base + 2], bytes[base + 3]);
        let w = if little { le_word_exec(b0, b1, b2, b3) } else { le_word_exec(b3, b2, b1, b0) };
        words.push(w);
        i += 1;
    }
    words
}

} // verus!
