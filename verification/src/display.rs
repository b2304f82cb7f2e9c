//! The display surface that the firmware hands out.

use vstd::prelude::*;
use vstd::string::StringSliceAdditionalSpecFns;
use crate::font::{font, glyph_row, glyphs, in_font, spec_glyph_row, FONT_FIRST, FONT_LAST};

verus! {

/// Width of a character cell in pixels.
pub const CHARSIZE_X: u32 = 8;

/// Height of a character cell in pixels.
pub const CHARSIZE_Y: u32 = 8;

/// A width and a height in pixels.
#[derive(Clone, Copy, Debug, PartialEq, Eq, Structural)]
pub struct Size2d {
    pub x: u32,
    pub y: u32,
}

/// The order of the colour channels in a pixel.
#[derive(Clone, Copy, Debug, PartialEq, Eq, Structural)]
pub enum PixelOrder {
    BGR,
    RGB,
}

impl PixelOrder {
    /// The number that stands for the order in a property message.
    pub open spec fn spec_code(self) -> u32 {
        match self {
            PixelOrder::BGR => 0,
            PixelOrder::RGB => 1,
        }
    }

    /// The order that `code` stands for, if it stands for one.
    pub open spec fn spec_from_code(code: u32) -> Option<PixelOrder> {
        if code == 0 {
            Some(PixelOrder::BGR)
        } else if code == 1 {
            Some(PixelOrder::RGB)
        } else {
            None
        }
    }

    /// The number that stands for the order in a property message.
    pub fn code(self) -> (code: u32)
        ensures
            code == self.spec_code(),
    {
        match self {
            PixelOrder::BGR => 0,
            PixelOrder::RGB => 1,
        }
    }

    /// The order that `code` stands for: 0 is BGR, 1 is RGB, and no other
    /// number is an order.
    pub fn from_code(code: u32) -> (order: Option<PixelOrder>)
        ensures
            order == PixelOrder::spec_from_code(code),
    {
        match code {
            0 => Some(PixelOrder::BGR),
            1 => Some(PixelOrder::RGB),
            _ => None,
        }
    }
}

/// A framebuffer as the firmware has set it up.
#[derive(Clone, Copy, Debug, PartialEq, Eq)]
pub struct Display {
    base: u32,
    size: u32,
    depth: u32,
    pitch: u32,
    max_x: u32,
    max_y: u32,
    width: u32,
    height: u32,
    order: PixelOrder,
}

/// A display as a mathematical value.
pub struct DisplayView {
    /// Physical address of the first byte of the framebuffer.
    pub base: u32,
    /// Size of the framebuffer in bytes.
    pub size: u32,
    /// Bits per pixel.
    pub depth: u32,
    /// Bytes per row.
    pub pitch: u32,
    /// Character cells per row.
    pub max_x: u32,
    /// Rows of character cells.
    pub max_y: u32,
    /// Width in pixels.
    pub width: u32,
    /// Height in pixels.
    pub height: u32,
    /// Order of the colour channels.
    pub order: PixelOrder,
}

impl View for Display {
    type V = DisplayView;

    closed spec fn view(&self) -> DisplayView {
        DisplayView {
            base: self.base,
            size: self.size,
            depth: self.depth,
            pitch: self.pitch,
            max_x: self.max_x,
            max_y: self.max_y,
            width: self.width,
            height: self.height,
            order: self.order,
        }
    }
}

impl Display {
    /// A display with the given fields.
    pub fn new(
        base: u32,
        size: u32,
        depth: u32,
        pitch: u32,
        max_x: u32,
        max_y: u32,
        width: u32,
        height: u32,
        order: PixelOrder,
    ) -> (display: Display)
        ensures
            display@ == (DisplayView {
                base,
                size,
                depth,
                pitch,
                max_x,
                max_y,
                width,
                height,
                order,
            }),
    {
        Display { base, size, depth, pitch, max_x, max_y, width, height, order }
    }

    /// Physical address of the first byte of the framebuffer.
    pub fn base(&self) -> (base: u32)
        ensures
            base == self@.base,
    {
        self.base
    }

    /// Size of the framebuffer in bytes.
    pub fn size(&self) -> (size: u32)
        ensures
            size == self@.size,
    {
        self.size
    }

    /// Bits per pixel.
    pub fn depth(&self) -> (depth: u32)
        ensures
            depth == self@.depth,
    {
        self.depth
    }

    /// Bytes per row.
    pub fn pitch(&self) -> (pitch: u32)
        ensures
            pitch == self@.pitch,
    {
        self.pitch
    }

    /// Character cells per row.
    pub fn max_x(&self) -> (max_x: u32)
        ensures
            max_x == self@.max_x,
    {
        self.max_x
    }

    /// Rows of character cells.
    pub fn max_y(&self) -> (max_y: u32)
        ensures
            max_y == self@.max_y,
    {
        self.max_y
    }

    /// Width in pixels.
    pub fn width(&self) -> (width: u32)
        ensures
            width == self@.width,
    {
        self.width
    }

    /// Height in pixels.
    pub fn height(&self) -> (height: u32)
        ensures
            height == self@.height,
    {
        self.height
    }

    /// Order of the colour channels.
    pub fn order(&self) -> (order: PixelOrder)
        ensures
            order == self@.order,
    {
        self.order
    }
}

/// Largest coordinate of a pixel.
pub const COORDINATE_MAX: u32 = 0xffff;

/// Whether every character of a text has a glyph.
pub open spec fn all_in_font(text: Seq<u8>) -> bool {
    forall|k: int| 0 <= k < text.len() ==> in_font(#[trigger] text[k])
}

impl DisplayView {
    /// Where channel `channel` of a colour (0 for its low byte, 2 for its
    /// third) stands among the three bytes of a pixel.
    pub open spec fn channel_at(self, channel: int) -> int {
        if self.order == PixelOrder::BGR {
            2 - channel
        } else {
            channel
        }
    }

    /// Offset of the first byte of the pixel in column `x` of row `y` from
    /// the start of the framebuffer.
    pub open spec fn pixel_offset(self, x: int, y: int) -> int {
        y * self.pitch + x * (self.depth / 8)
    }

    /// Whether the pixel can be drawn in a frame of `frame_len` bytes: its
    /// coordinates fit in 16 bits and its three bytes lie in the frame.
    pub open spec fn drawable(self, frame_len: nat, x: int, y: int) -> bool {
        &&& 0 <= x <= COORDINATE_MAX
        &&& 0 <= y <= COORDINATE_MAX
        &&& self.pixel_offset(x, y) + 2 < frame_len
    }

    /// The frame with the pixel in column `x` of row `y` set to `color`: the
    /// three low bytes of the colour stand in the first three bytes of the
    /// pixel, in the order of the display's channels. A pixel that cannot be
    /// drawn leaves the frame as it is.
    pub open spec fn put(self, frame: Seq<u8>, x: int, y: int, color: u32) -> Seq<u8> {
        let at = self.pixel_offset(x, y);
        if self.drawable(frame.len(), x, y) {
            frame.update(at + self.channel_at(0), (color & 0xff) as u8).update(
                at + self.channel_at(1),
                ((color >> 8) & 0xff) as u8,
            ).update(at + self.channel_at(2), ((color >> 16) & 0xff) as u8)
        } else {
            frame
        }
    }

    /// The frame with the pixels of row `y` from column `x1` up to, not
    /// including, column `x2` set, one after the other.
    pub open spec fn fill_row(self, frame: Seq<u8>, x1: int, x2: int, y: int, color: u32) -> Seq<
        u8,
    >
        decreases x2 - x1,
    {
        if x1 >= x2 {
            frame
        } else {
            self.fill_row(self.put(frame, x1, y, color), x1 + 1, x2, y, color)
        }
    }

    /// The frame with the rectangle of the columns from `x1` up to `x2` and
    /// the rows from `y1` up to `y2` filled, row after row.
    pub open spec fn fill_rect(
        self,
        frame: Seq<u8>,
        x1: int,
        y1: int,
        x2: int,
        y2: int,
        color: u32,
    ) -> Seq<u8>
        decreases y2 - y1,
    {
        if y1 >= y2 {
            frame
        } else {
            self.fill_rect(self.fill_row(frame, x1, x2, y1, color), x1, y1 + 1, x2, y2, color)
        }
    }

    /// The frame with the set pixels of one row of a glyph drawn from column
    /// `from` on: bit `n` of `bits` stands for the pixel at `x + n`.
    pub open spec fn draw_bits(
        self,
        frame: Seq<u8>,
        x: int,
        y: int,
        bits: u8,
        from: u8,
        color: u32,
    ) -> Seq<u8>
        decreases 8 - from,
    {
        if from >= 8 {
            frame
        } else {
            let next = if (bits >> from) & 1 == 1 {
                self.put(frame, x + from, y, color)
            } else {
                frame
            };
            self.draw_bits(next, x, y, bits, (from + 1) as u8, color)
        }
    }

    /// The frame with row `row` of the glyphs of the characters of `text`
    /// drawn from character `from` on, up to the first character without a
    /// glyph. Character `k` starts at column `x + 8 * k`.
    pub open spec fn draw_row(
        self,
        frame: Seq<u8>,
        x: int,
        y: int,
        text: Seq<u8>,
        row: u8,
        from: int,
        color: u32,
    ) -> Seq<u8>
        decreases text.len() - from,
    {
        if from < 0 || from >= text.len() || !in_font(text[from]) {
            frame
        } else {
            let bits = spec_glyph_row(font()[text[from] - FONT_FIRST], row);
            self.draw_row(
                self.draw_bits(frame, x + 8 * from, y + row, bits, 0, color),
                x,
                y,
                text,
                row,
                from + 1,
                color,
            )
        }
    }

    /// The frame with the rows of the glyphs of `text` drawn from row `from`
    /// on.
    pub open spec fn draw_rows(
        self,
        frame: Seq<u8>,
        x: int,
        y: int,
        text: Seq<u8>,
        from: u8,
        color: u32,
    ) -> Seq<u8>
        decreases 8 - from,
    {
        if from >= 8 {
            frame
        } else {
            self.draw_rows(
                self.draw_row(frame, x, y, text, from, 0, color),
                x,
                y,
                text,
                (from + 1) as u8,
                color,
            )
        }
    }

    /// The frame with `text` drawn with its top left corner at column `x` of
    /// row `y`. A text of characters that all have a glyph is drawn row by
    /// row. Drawing stops at the first character without a glyph: of such a
    /// text only the top row of the characters before that one is drawn.
    pub open spec fn draw_text(self, frame: Seq<u8>, x: int, y: int, text: Seq<u8>, color: u32) -> Seq<
        u8,
    > {
        if all_in_font(text) {
            self.draw_rows(frame, x, y, text, 0, color)
        } else {
            self.draw_row(frame, x, y, text, 0, 0, color)
        }
    }
}

impl Display {
    /// Sets the pixel in column `x` of row `y` of the frame to `color`.
    /// `frame` is the memory of the framebuffer. The pixel is left out if its
    /// bytes do not lie in the frame.
    pub fn putpixel(&self, frame: &mut [u8], x: u16, y: u16, color: u32)
        ensures
            final(frame)@ == self@.put(old(frame)@, x as int, y as int, color),
    {
        let step: u64 = (self.depth / 8) as u64;
        assert(y as u64 * self.pitch as u64 <= 0xffff * 0xffff_ffff) by (nonlinear_arith)
            requires
                y as u64 <= 0xffff,
                self.pitch as u64 <= 0xffff_ffff,
        ;
        assert(x as u64 * step <= 0xffff * 0x1fff_ffff) by (nonlinear_arith)
            requires
                x as u64 <= 0xffff,
                step <= 0x1fff_ffff,
        ;
        let at: u64 = y as u64 * self.pitch as u64 + x as u64 * step;
        let len = frame.len();
        if at + 2 < len as u64 {
            let first: usize = at as usize;
            let (low, middle, high): (usize, usize, usize) = match self.order {
                PixelOrder::BGR => (first + 2, first + 1, first),
                PixelOrder::RGB => (first, first + 1, first + 2),
            };
            assert(color & 0xff <= 0xff) by (bit_vector);
            assert((color >> 8) & 0xff <= 0xff) by (bit_vector);
            assert((color >> 16) & 0xff <= 0xff) by (bit_vector);
            frame[low] = (color & 0xff) as u8;
            frame[middle] = ((color >> 8) & 0xff) as u8;
            frame[high] = ((color >> 16) & 0xff) as u8;
        }
    }

    /// Fills the rectangle of the columns from `x1` up to, not including,
    /// `x2` and the rows from `y1` up to, not including, `y2` with `color`,
    /// pixel by pixel.
    pub fn rect(&self, frame: &mut [u8], x1: u16, y1: u16, x2: u16, y2: u16, color: u32)
        ensures
            final(frame)@ == self@.fill_rect(
                old(frame)@,
                x1 as int,
                y1 as int,
                x2 as int,
                y2 as int,
                color,
            ),
    {
        let ghost start = frame@;
        let mut y = y1;
        while y < y2
            invariant
                self@.fill_rect(frame@, x1 as int, y as int, x2 as int, y2 as int, color)
                    == self@.fill_rect(start, x1 as int, y1 as int, x2 as int, y2 as int, color),
            decreases y2 - y,
        {
            let ghost row_start = frame@;
            let mut x = x1;
            while x < x2
                invariant
                    self@.fill_row(frame@, x as int, x2 as int, y as int, color)
                        == self@.fill_row(row_start, x1 as int, x2 as int, y as int, color),
                decreases x2 - x,
            {
                self.putpixel(frame, x, y, color);
                x = x + 1;
            }
            y = y + 1;
        }
    }

    /// Draws one row of a glyph: the pixel at `x + n` of row `y` is set for
    /// every bit `n` of `bits` that is set.
    fn draw_bits(&self, frame: &mut [u8], x: u32, y: u32, bits: u8, color: u32)
        requires
            x <= 0x0010_0000,
            y <= 0x0010_0000,
        ensures
            final(frame)@ == self@.draw_bits(old(frame)@, x as int, y as int, bits, 0, color),
    {
        let ghost start = frame@;
        let mut n: u8 = 0;
        while n < 8
            invariant
                n <= 8,
                x <= 0x0010_0000,
                y <= 0x0010_0000,
                self@.draw_bits(frame@, x as int, y as int, bits, n, color) == self@.draw_bits(
                    start,
                    x as int,
                    y as int,
                    bits,
                    0,
                    color,
                ),
            decreases 8 - n,
        {
            if (bits >> n) & 1 == 1 {
                let column = x + n as u32;
                if column <= COORDINATE_MAX && y <= COORDINATE_MAX {
                    self.putpixel(frame, column as u16, y as u16, color);
                }
            }
            n = n + 1;
        }
    }

    /// Draws `text` with its top left corner at column `x` of row `y`, one
    /// row of pixels after the other, each character eight columns to the
    /// right of the one before it. Pixels whose coordinates do not fit in 16
    /// bits, or whose bytes do not lie in the frame, are left out. Drawing
    /// stops for good at the first character that has no glyph.
    pub fn draw_text(&self, frame: &mut [u8], x: u16, y: u16, text: &str, color: u32)
        ensures
            final(frame)@ == self@.draw_text(
                old(frame)@,
                x as int,
                y as int,
                text.spec_bytes(),
                color,
            ),
    {
        let bytes = text.as_bytes();
        let table = glyphs();
        let ghost start = frame@;
        let mut row: u8 = 0;
        while row < 8
            invariant
                row <= 8,
                bytes@ == text.spec_bytes(),
                table@ == font(),
                row > 0 ==> all_in_font(bytes@),
                row == 0 ==> frame@ == start,
                start == old(frame)@,
                self@.draw_rows(frame@, x as int, y as int, bytes@, row, color) == self@.draw_rows(
                    start,
                    x as int,
                    y as int,
                    bytes@,
                    0,
                    color,
                ),
            decreases 8 - row,
        {
            let ghost row_start = frame@;
            let mut k: usize = 0;
            while k < bytes.len()
                invariant
                    k <= bytes.len(),
                    row < 8,
                    table@ == font(),
                    bytes@ == text.spec_bytes(),
                    row > 0 ==> all_in_font(bytes@),
                    row == 0 ==> row_start == start,
                    start == old(frame)@,
                    forall|j: int| 0 <= j < k ==> in_font(#[trigger] bytes@[j]),
                    self@.draw_row(frame@, x as int, y as int, bytes@, row, k as int, color)
                        == self@.draw_row(row_start, x as int, y as int, bytes@, row, 0, color),
                decreases bytes.len() - k,
            {
                let c = bytes[k];
                if c < FONT_FIRST || c > FONT_LAST {
                    assert(!in_font(bytes@[k as int]));
                    assert(!all_in_font(bytes@));
                    return ;
                }
                let bits = glyph_row(table[(c - FONT_FIRST) as usize], row);
                if k <= 0x2000 {
                    self.draw_bits(
                        frame,
                        x as u32 + 8 * k as u32,
                        y as u32 + row as u32,
                        bits,
                        color,
                    );
                } else {
                    proof {
                        self@.lemma_draw_bits_off_canvas(
                            frame@,
                            x as int + 8 * k as int,
                            y as int + row as int,
                            bits,
                            0,
                            color,
                        );
                    }
                }
                k = k + 1;
            }
            assert(all_in_font(bytes@));
            row = row + 1;
        }
    }
}

impl DisplayView {
    /// A row of a glyph that starts to the right of the last column leaves
    /// the frame as it is.
    pub proof fn lemma_draw_bits_off_canvas(
        self,
        frame: Seq<u8>,
        x: int,
        y: int,
        bits: u8,
        from: u8,
        color: u32,
    )
        requires
            x > COORDINATE_MAX,
        ensures
            self.draw_bits(frame, x, y, bits, from, color) == frame,
        decreases 8 - from,
    {
        if from < 8 {
            self.lemma_draw_bits_off_canvas(frame, x, y, bits, (from + 1) as u8, color);
        }
    }
}

} // verus!
