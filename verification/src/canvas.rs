use vstd::prelude::*;

use crate::decimal::{digits_of, push_decimal};

verus! {

/// Bytes stored for one pixel: red, green, blue, alpha.
pub const BYTES_PER_PIXEL: usize = 4;

/// The alpha byte of every pixel.
pub const OPAQUE: u8 = 255;

/// An 8-bit colour: what is read out of a radiance value once gamma has been
/// applied and each channel saturated.
#[derive(Clone, Copy, Debug, PartialEq, Eq, Structural)]
pub struct Rgb {
    pub r: u8,
    pub g: u8,
    pub b: u8,
}

/// One store into a frame, as a value: the pixel and the colour written to it.
#[derive(Clone, Copy, Debug, PartialEq, Eq, Structural)]
pub struct PixelWrite {
    pub x: u32,
    pub y: u32,
    pub color: Rgb,
}

/// Whether `(x, y)` names a pixel of a `width` by `height` frame.
pub open spec fn in_frame(width: u32, height: u32, x: u32, y: u32) -> bool {
    x < width && y < height
}

/// Number of bytes of a `width` by `height` frame.
pub open spec fn frame_len(width: u32, height: u32) -> int {
    width * height * 4
}

/// Index of the red byte of pixel `(x, y)` in a row-major frame.
pub open spec fn pixel_offset(width: u32, x: u32, y: u32) -> int {
    (y * width + x) * 4
}

/// The colour held for pixel `(x, y)`.
pub open spec fn pixel_at(bytes: Seq<u8>, width: u32, x: u32, y: u32) -> Rgb {
    let at = pixel_offset(width, x, y);
    Rgb { r: bytes[at], g: bytes[at + 1], b: bytes[at + 2] }
}

/// The alpha byte held for pixel `(x, y)`.
pub open spec fn alpha_at(bytes: Seq<u8>, width: u32, x: u32, y: u32) -> u8 {
    bytes[pixel_offset(width, x, y) + 3]
}

/// A frame in which every pixel is black and opaque.
pub open spec fn cleared_frame(width: u32, height: u32) -> Seq<u8> {
    Seq::new(
        frame_len(width, height) as nat,
        |i: int|
            if i % 4 == 3 {
                OPAQUE
            } else {
                0u8
            },
    )
}

/// The frame after one store. A store outside the frame changes nothing.
pub open spec fn with_pixel(bytes: Seq<u8>, width: u32, height: u32, write: PixelWrite) -> Seq<u8> {
    if in_frame(width, height, write.x, write.y) {
        let at = pixel_offset(width, write.x, write.y);
        bytes.update(at, write.color.r).update(at + 1, write.color.g).update(
            at + 2,
            write.color.b,
        ).update(at + 3, OPAQUE)
    } else {
        bytes
    }
}

/// The frame after a run of stores, made in the order of the sequence.
pub open spec fn with_pixels(
    bytes: Seq<u8>,
    width: u32,
    height: u32,
    writes: Seq<PixelWrite>,
) -> Seq<u8>
    decreases writes.len(),
{
    if writes.len() == 0 {
        bytes
    } else {
        with_pixel(
            with_pixels(bytes, width, height, writes.drop_last()),
            width,
            height,
            writes.last(),
        )
    }
}

/// The red, green and blue bytes of a frame, pixel by pixel, without alpha.
pub open spec fn rgb_bytes(bytes: Seq<u8>) -> Seq<u8> {
    Seq::new(((bytes.len() / 4) * 3) as nat, |i: int| bytes[(i / 3) * 4 + i % 3])
}

/// Pixels of one frame lie apart: distinct pixels have offsets at least four
/// bytes from each other, and every pixel lies inside the frame.
pub proof fn lemma_pixel_offsets(width: u32, height: u32, x: u32, y: u32, u: u32, v: u32)
    requires
        in_frame(width, height, x, y),
        in_frame(width, height, u, v),
    ensures
        0 <= y * width,
        0 <= pixel_offset(width, x, y),
        pixel_offset(width, x, y) + 4 <= frame_len(width, height),
        pixel_offset(width, x, y) % 4 == 0,
        (x, y) != (u, v) ==> pixel_offset(width, x, y) + 4 <= pixel_offset(width, u, v)
            || pixel_offset(width, u, v) + 4 <= pixel_offset(width, x, y),
{
    assert(y * width + x < width * height && 0 <= y * width) by (nonlinear_arith)
        requires
            x < width,
            y < height,
    ;
    if y < v {
        assert(y * width + x < v * width + u) by (nonlinear_arith)
            requires
                x < width,
                y < v,
        ;
    } else if v < y {
        assert(v * width + u < y * width + x) by (nonlinear_arith)
            requires
                u < width,
                v < y,
        ;
    }
}

/// What one store does to one pixel of the frame: the pixel stored to holds the
/// new colour and is opaque, and every other pixel holds what it held before.
pub proof fn lemma_with_pixel(
    bytes: Seq<u8>,
    width: u32,
    height: u32,
    write: PixelWrite,
    x: u32,
    y: u32,
)
    requires
        bytes.len() == frame_len(width, height),
        in_frame(width, height, x, y),
    ensures
        with_pixel(bytes, width, height, write).len() == bytes.len(),
        (write.x, write.y) == (x, y) ==> pixel_at(
            with_pixel(bytes, width, height, write),
            width,
            x,
            y,
        ) == write.color && alpha_at(with_pixel(bytes, width, height, write), width, x, y)
            == OPAQUE,
        (write.x, write.y) != (x, y) ==> pixel_at(
            with_pixel(bytes, width, height, write),
            width,
            x,
            y,
        ) == pixel_at(bytes, width, x, y) && alpha_at(
            with_pixel(bytes, width, height, write),
            width,
            x,
            y,
        ) == alpha_at(bytes, width, x, y),
{
    lemma_pixel_offsets(width, height, x, y, x, y);
    if in_frame(width, height, write.x, write.y) {
        lemma_pixel_offsets(width, height, write.x, write.y, x, y);
    }
}

/// A run of stores keeps the size of the frame.
pub proof fn lemma_with_pixels_len(
    bytes: Seq<u8>,
    width: u32,
    height: u32,
    writes: Seq<PixelWrite>,
)
    requires
        bytes.len() == frame_len(width, height),
    ensures
        with_pixels(bytes, width, height, writes).len() == bytes.len(),
    decreases writes.len(),
{
    if writes.len() > 0 {
        lemma_with_pixels_len(bytes, width, height, writes.drop_last());
        let last = writes.last();
        if in_frame(width, height, last.x, last.y) {
            lemma_pixel_offsets(width, height, last.x, last.y, last.x, last.y);
        }
    }
}

/// The last store wins. After any run of stores into a frame, a pixel holds the
/// colour of the last store that was made to it, with alpha 255, whatever was
/// stored to it or to other pixels before and whatever was stored to other
/// pixels afterwards.
pub proof fn lemma_last_write_wins(
    bytes: Seq<u8>,
    width: u32,
    height: u32,
    writes: Seq<PixelWrite>,
    k: int,
)
    requires
        bytes.len() == frame_len(width, height),
        0 <= k < writes.len(),
        in_frame(width, height, writes[k].x, writes[k].y),
        forall|j: int|
            k < j < writes.len() ==> (#[trigger] writes[j].x, writes[j].y) != (
                writes[k].x,
                writes[k].y,
            ),
    ensures
        pixel_at(with_pixels(bytes, width, height, writes), width, writes[k].x, writes[k].y)
            == writes[k].color,
        alpha_at(with_pixels(bytes, width, height, writes), width, writes[k].x, writes[k].y)
            == OPAQUE,
    decreases writes.len(),
{
    let before = with_pixels(bytes, width, height, writes.drop_last());
    lemma_with_pixels_len(bytes, width, height, writes.drop_last());
    lemma_with_pixel(before, width, height, writes.last(), writes[k].x, writes[k].y);
    if k < writes.len() - 1 {
        assert(writes.drop_last()[k] == writes[k]);
        assert forall|j: int| k < j < writes.drop_last().len() implies (
            #[trigger] writes.drop_last()[j].x,
            writes.drop_last()[j].y,
        ) != (writes[k].x, writes[k].y) by {
            assert(writes.drop_last()[j] == writes[j]);
        }
        lemma_last_write_wins(bytes, width, height, writes.drop_last(), k);
        let last = writes[writes.len() - 1];
        assert((last.x, last.y) != (writes[k].x, writes[k].y));
    }
}

/// A pixel that no store of a run was made to holds what it held before the run.
pub proof fn lemma_untouched_pixel_keeps(
    bytes: Seq<u8>,
    width: u32,
    height: u32,
    writes: Seq<PixelWrite>,
    x: u32,
    y: u32,
)
    requires
        bytes.len() == frame_len(width, height),
        in_frame(width, height, x, y),
        forall|j: int| 0 <= j < writes.len() ==> (#[trigger] writes[j].x, writes[j].y) != (x, y),
    ensures
        pixel_at(with_pixels(bytes, width, height, writes), width, x, y) == pixel_at(
            bytes,
            width,
            x,
            y,
        ),
        alpha_at(with_pixels(bytes, width, height, writes), width, x, y) == alpha_at(
            bytes,
            width,
            x,
            y,
        ),
    decreases writes.len(),
{
    if writes.len() > 0 {
        let before = with_pixels(bytes, width, height, writes.drop_last());
        lemma_with_pixels_len(bytes, width, height, writes.drop_last());
        assert forall|j: int| 0 <= j < writes.drop_last().len() implies (
            #[trigger] writes.drop_last()[j].x,
            writes.drop_last()[j].y,
        ) != (x, y) by {
            assert(writes.drop_last()[j] == writes[j]);
        }
        lemma_untouched_pixel_keeps(bytes, width, height, writes.drop_last(), x, y);
        let last = writes[writes.len() - 1];
        assert((last.x, last.y) != (x, y));
        lemma_with_pixel(before, width, height, writes.last(), x, y);
    }
}

/// A width by height frame of RGBA bytes, row-major, that render workers store
/// pixels into and that a display or an image writer reads as a whole.
pub struct PixelBuffer {
    width: u32,
    height: u32,
    data: Vec<u8>,
}

impl View for PixelBuffer {
    type V = Seq<u8>;

    closed spec fn view(&self) -> Seq<u8> {
        self.data@
    }
}

impl PixelBuffer {
    pub closed spec fn spec_width(&self) -> u32 {
        self.width
    }

    pub closed spec fn spec_height(&self) -> u32 {
        self.height
    }

    /// The buffer holds one RGBA group per pixel, and every alpha byte is 255.
    pub open spec fn wf(&self) -> bool {
        &&& self@.len() == frame_len(self.spec_width(), self.spec_height())
        &&& forall|i: int| 0 <= i < self@.len() && i % 4 == 3 ==> self@[i] == OPAQUE
    }

    /// A cleared buffer, or `None` where the frame would not fit in memory.
    pub fn new(width: u32, height: u32) -> (buffer: Option<PixelBuffer>)
        ensures
            buffer is Some <==> frame_len(width, height) <= usize::MAX,
            buffer matches Some(b) ==> b.wf() && b.spec_width() == width && b.spec_height()
                == height && b@ == cleared_frame(width, height),
    {
        let pixels = match (width as usize).checked_mul(height as usize) {
            Some(n) => n,
            None => {
                assert(width * height * 4 >= width * height) by (nonlinear_arith);
                return None;
            },
        };
        let len = match pixels.checked_mul(BYTES_PER_PIXEL) {
            Some(n) => n,
            None => {
                return None;
            },
        };
        let mut data: Vec<u8> = Vec::new();
        let mut i: usize = 0;
        while i < len
            invariant
                i <= len,
                data@.len() == i,
                forall|k: int| 0 <= k < i ==> data@[k] == (if k % 4 == 3 {
                    OPAQUE
                } else {
                    0u8
                }),
            decreases len - i,
        {
            data.push(if i % 4 == 3 {
                OPAQUE
            } else {
                0
            });
            i += 1;
        }
        assert(data@ =~= cleared_frame(width, height));
        Some(PixelBuffer { width, height, data })
    }

    #[verifier::when_used_as_spec(spec_width)]
    pub fn width(&self) -> (w: u32)
        ensures
            w == self.spec_width(),
    {
        self.width
    }

    #[verifier::when_used_as_spec(spec_height)]
    pub fn height(&self) -> (h: u32)
        ensures
            h == self.spec_height(),
    {
        self.height
    }

    /// Stores `color` at `(x, y)` with alpha 255. Outside the frame nothing is
    /// stored and the answer is `false`.
    pub fn set_pixel(&mut self, x: u32, y: u32, color: Rgb) -> (stored: bool)
        requires
            old(self).wf(),
        ensures
            final(self).wf(),
            final(self).spec_width() == old(self).spec_width(),
            final(self).spec_height() == old(self).spec_height(),
            stored == in_frame(old(self).spec_width(), old(self).spec_height(), x, y),
            final(self)@ == with_pixel(
                old(self)@,
                old(self).spec_width(),
                old(self).spec_height(),
                PixelWrite { x, y, color },
            ),
    {
        if x >= self.width || y >= self.height {
            return false;
        }
        let len: usize = self.data.len();
        proof {
            lemma_pixel_offsets(self.width, self.height, x, y, x, y);
            assert(pixel_offset(self.width, x, y) + 4 <= len);
        }
        let at: usize = (y as usize * self.width as usize + x as usize) * BYTES_PER_PIXEL;
        self.data[at] = color.r;
        self.data[at + 1] = color.g;
        self.data[at + 2] = color.b;
        self.data[at + 3] = OPAQUE;
        true
    }

    /// The colour stored at `(x, y)`, or `None` outside the frame.
    pub fn pixel(&self, x: u32, y: u32) -> (color: Option<Rgb>)
        requires
            self.wf(),
        ensures
            color == if in_frame(self.spec_width(), self.spec_height(), x, y) {
                Some(pixel_at(self@, self.spec_width(), x, y))
            } else {
                None
            },
    {
        if x >= self.width || y >= self.height {
            return None;
        }
        let len: usize = self.data.len();
        proof {
            lemma_pixel_offsets(self.width, self.height, x, y, x, y);
            assert(pixel_offset(self.width, x, y) + 4 <= len);
        }
        let at: usize = (y as usize * self.width as usize + x as usize) * BYTES_PER_PIXEL;
        Some(Rgb { r: self.data[at], g: self.data[at + 1], b: self.data[at + 2] })
    }

    /// Makes every pixel black and opaque.
    pub fn clear(&mut self)
        requires
            old(self).wf(),
        ensures
            final(self).wf(),
            final(self).spec_width() == old(self).spec_width(),
            final(self).spec_height() == old(self).spec_height(),
            final(self)@ == cleared_frame(old(self).spec_width(), old(self).spec_height()),
    {
        let len: usize = self.data.len();
        let mut i: usize = 0;
        while i < len
            invariant
                i <= len,
                self.data@.len() == len,
                self.width == old(self).width,
                self.height == old(self).height,
                forall|k: int| 0 <= k < i ==> self.data@[k] == (if k % 4 == 3 {
                    OPAQUE
                } else {
                    0u8
                }),
            decreases len - i,
        {
            self.data[i] = if i % 4 == 3 {
                OPAQUE
            } else {
                0
            };
            i += 1;
        }
        assert(self.data@ =~= cleared_frame(self.width, self.height));
    }

    /// Copies the whole frame into `dst`, which takes the frame's size.
    pub fn snapshot(&self, dst: &mut Vec<u8>)
        ensures
            final(dst)@ == self@,
    {
        dst.clear();
        let len: usize = self.data.len();
        let mut i: usize = 0;
        while i < len
            invariant
                i <= len,
                len == self.data@.len(),
                dst@ == self.data@.take(i as int),
            decreases len - i,
        {
            dst.push(self.data[i]);
            i += 1;
            assert(dst@ =~= self.data@.take(i as int));
        }
        assert(self.data@.take(len as int) =~= self.data@);
    }

    /// The frame as 8-bit RGB, row-major, for an image writer.
    pub fn to_rgb(&self) -> (rgb: Vec<u8>)
        requires
            self.wf(),
        ensures
            rgb@ == rgb_bytes(self@),
    {
        let len: usize = self.data.len();
        let pixels: usize = len / BYTES_PER_PIXEL;
        let mut rgb: Vec<u8> = Vec::new();
        let mut p: usize = 0;
        while p < pixels
            invariant
                p <= pixels,
                len == self.data@.len(),
                pixels == len / 4,
                rgb@.len() == 3 * p,
                forall|i: int| 0 <= i < 3 * p ==> rgb@[i] == self.data@[(i / 3) * 4 + i % 3],
            decreases pixels - p,
        {
            let at: usize = p * BYTES_PER_PIXEL;
            rgb.push(self.data[at]);
            rgb.push(self.data[at + 1]);
            rgb.push(self.data[at + 2]);
            p += 1;
        }
        assert(rgb@ =~= rgb_bytes(self@));
        rgb
    }
}

/// The name of the image file that is saved at the given time, in seconds
/// since the epoch: the seconds in decimal, with the ending of a PNG file, in
/// the directory `dump`.
pub open spec fn spec_dump_file_name(unix_seconds: u64) -> Seq<char> {
    "dump/"@ + digits_of(unix_seconds as nat) + ".png"@
}

/// The directory that images are saved in.
pub fn dump_directory() -> (directory: &'static str)
    ensures
        directory@ == "dump"@,
{
    "dump"
}

/// The name of the image file that is saved at the given time.
pub fn dump_file_name(unix_seconds: u64) -> (name: String)
    ensures
        name@ == spec_dump_file_name(unix_seconds),
{
    let mut name = String::from_str("dump/");
    push_decimal(&mut name, unix_seconds);
    name.append(".png");
    name
}

} // verus!
