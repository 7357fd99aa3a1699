use vstd::prelude::*;

use crate::color::Color;

verus! {

/// Physical pixel width of the panel.
pub const WIDTH: u32 = 600;

/// Physical pixel height of the panel.
pub const HEIGHT: u32 = 448;

/// Number of bytes in the packed frame buffer: two pixels per byte.
pub const BUFFER_LEN: usize = 134400;

/// Rotation applied to logical coordinates before they address the
/// physical buffer; only quarter turns are supported.
#[derive(Clone, Copy, Debug, PartialEq, Eq, Structural)]
pub enum Rotation {
    Rotate0,
    Rotate90,
    Rotate180,
    Rotate270,
}

/// The packed frame buffer of the panel. Each byte holds two horizontally
/// adjacent physical pixels: the even-x pixel in the high nibble, the
/// odd-x pixel in the low nibble. Logical drawing coordinates are first
/// transformed by the active rotation; coordinates that land outside the
/// physical extent are silently dropped, so drawing never panics.
pub struct DisplayBuffer {
    pub(crate) buffer: Vec<u8>,
    pub(crate) rotation: Rotation,
}

/// The logical-to-physical coordinate transform of a rotation.
pub open spec fn spec_transform(r: Rotation, x: int, y: int) -> (int, int) {
    match r {
        Rotation::Rotate0 => (x, y),
        Rotation::Rotate90 => (y, WIDTH - 1 - x),
        Rotation::Rotate180 => (WIDTH - 1 - x, HEIGHT - 1 - y),
        Rotation::Rotate270 => (HEIGHT - 1 - y, x),
    }
}

/// Whether a physical coordinate pair addresses a pixel of the panel.
pub open spec fn in_bounds(x: int, y: int) -> bool {
    0 <= x < WIDTH && 0 <= y < HEIGHT
}

/// Index of the byte that holds the physical pixel (x, y).
pub open spec fn byte_index(x: int, y: int) -> int {
    (y * (WIDTH as int) + x) / 2
}

/// The 4-bit palette index a byte holds for a pixel with the given x
/// parity: high nibble for even x, low nibble for odd x.
pub open spec fn nibble_of(b: u8, x: int) -> u8 {
    if x % 2 == 0 {
        b / 16
    } else {
        b % 16
    }
}

impl DisplayBuffer {
    /// A buffer is well formed when it has exactly one nibble per
    /// physical pixel.
    pub open spec fn wf(self) -> bool {
        self.buffer_view().len() == BUFFER_LEN
    }

    /// The palette index stored for the physical pixel (x, y).
    pub open spec fn pixel(self, x: int, y: int) -> u8
        recommends
            self.wf(),
            in_bounds(x, y),
    {
        nibble_of(self.buffer_view()[byte_index(x, y)], x)
    }

    /// Where the logical coordinate (x, y) lands physically, or `None`
    /// when it misses the panel.
    pub open spec fn spec_effective_position(self, x: int, y: int) -> Option<(int, int)> {
        if x < 0 || y < 0 {
            None
        } else {
            let (tx, ty) = spec_transform(self.spec_rotation(), x, y);
            if in_bounds(tx, ty) {
                Some((tx, ty))
            } else {
                None
            }
        }
    }

    /// Creates a frame buffer with every pixel black and no rotation.
    pub fn new() -> (r: DisplayBuffer)
        ensures
            r.wf(),
            r.spec_rotation() == Rotation::Rotate0,
            forall|i: int| 0 <= i < BUFFER_LEN ==> r.buffer_view()[i] == 0u8,
    {
        let mut buffer: Vec<u8> = Vec::new();
        let mut i: usize = 0;
        while i < BUFFER_LEN
            invariant
                i == buffer@.len(),
                i <= BUFFER_LEN,
                forall|j: int| 0 <= j < i ==> buffer@[j] == 0u8,
            decreases BUFFER_LEN - i,
        {
            buffer.push(0u8);
            i = i + 1;
        }
        DisplayBuffer { buffer, rotation: Rotation::Rotate0 }
    }

    /// The sequence of packed bytes, as the panel driver consumes them.
    pub closed spec fn buffer_view(self) -> Seq<u8> {
        self.buffer@
    }

    /// The active rotation.
    pub closed spec fn spec_rotation(&self) -> Rotation {
        self.rotation
    }

    pub fn width(&self) -> (r: usize)
        ensures
            r == WIDTH,
    {
        600
    }

    pub fn height(&self) -> (r: usize)
        ensures
            r == HEIGHT,
    {
        448
    }

    /// Borrows the packed bytes for the panel driver.
    pub fn buffer(&self) -> (r: &[u8])
        ensures
            r@ == self.buffer_view(),
    {
        self.buffer.as_slice()
    }

    #[verifier::when_used_as_spec(spec_rotation)]
    pub fn rotation(&self) -> (r: Rotation)
        ensures
            r == self.spec_rotation(),
    {
        self.rotation
    }

    /// Changes the rotation for future drawing; pixels already in the
    /// buffer stay where they are.
    pub fn set_rotation(&mut self, rotation: Rotation)
        ensures
            final(self).buffer_view() == old(self).buffer_view(),
            final(self).spec_rotation() == rotation,
    {
        self.rotation = rotation;
    }

    /// Maps a logical coordinate through the active rotation and checks
    /// it against the physical extent.
    fn effective_position(&self, x: i32, y: i32) -> (r: Option<(usize, usize)>)
        ensures
            match r {
                Some((tx, ty)) => {
                    &&& self.spec_effective_position(x as int, y as int) == Some((
                        tx as int,
                        ty as int,
                    ))
                    &&& in_bounds(tx as int, ty as int)
                },
                None => self.spec_effective_position(x as int, y as int) is None,
            },
    {
        if x < 0 || y < 0 {
            return None;
        }
        let xl: i64 = x as i64;
        let yl: i64 = y as i64;
        let (tx, ty): (i64, i64) = match self.rotation {
            Rotation::Rotate0 => (xl, yl),
            Rotation::Rotate90 => (yl, (WIDTH as i64) - 1 - xl),
            Rotation::Rotate180 => ((WIDTH as i64) - 1 - xl, (HEIGHT as i64) - 1 - yl),
            Rotation::Rotate270 => ((HEIGHT as i64) - 1 - yl, xl),
        };
        if tx < 0 || tx >= WIDTH as i64 || ty < 0 || ty >= HEIGHT as i64 {
            return None;
        }
        Some((tx as usize, ty as usize))
    }

    /// Index of the byte that holds the physical pixel (x, y).
    fn get_index(&self, x: usize, y: usize) -> (r: usize)
        requires
            in_bounds(x as int, y as int),
        ensures
            r == byte_index(x as int, y as int),
            r < BUFFER_LEN,
    {
        proof {
            lemma_byte_index_range(x as int, y as int);
        }
        (y * (WIDTH as usize) + x) / 2
    }

    /// Writes one logical pixel. The sibling nibble that shares the byte
    /// is preserved by a read-modify-write; coordinates that miss the
    /// panel are silently dropped.
    pub fn set_pixel(&mut self, x: i32, y: i32, color: Color)
        requires
            old(self).wf(),
        ensures
            final(self).wf(),
            final(self).spec_rotation() == old(self).spec_rotation(),
            match old(self).spec_effective_position(x as int, y as int) {
                Some((tx, ty)) => {
                    &&& forall|i: int|
                        0 <= i < BUFFER_LEN && i != byte_index(tx, ty)
                            ==> final(self).buffer_view()[i] == old(self).buffer_view()[i]
                    &&& final(self).pixel(tx, ty) == color.spec_nibble()
                    &&& final(self).pixel(sibling(tx), ty) == old(self).pixel(sibling(tx), ty)
                },
                None => final(self).buffer_view() == old(self).buffer_view(),
            },
    {
        if let Some((tx, ty)) = self.effective_position(x, y) {
            let idx = self.get_index(tx, ty);
            let b = self.buffer[idx];
            let n = color.nibble();
            let nb: u8 = if tx % 2 == 0 {
                (b & 0x0f) | (n << 4)
            } else {
                (b & 0xf0) | n
            };
            proof {
                lemma_nibble_write(b, n, tx as int);
                lemma_byte_index_range(tx as int, ty as int);
            }
            self.buffer.set(idx, nb);
        }
    }

    /// Reads back the color of a logical pixel, `None` when the
    /// coordinate misses the panel or the stored nibble is not a palette
    /// index.
    pub fn get_pixel(&self, x: i32, y: i32) -> (r: Option<Color>)
        requires
            self.wf(),
        ensures
            match self.spec_effective_position(x as int, y as int) {
                Some((tx, ty)) => r == Color::spec_from_nibble(self.pixel(tx, ty)),
                None => r is None,
            },
    {
        if let Some((tx, ty)) = self.effective_position(x, y) {
            let idx = self.get_index(tx, ty);
            let b = self.buffer[idx];
            let n: u8 = if tx % 2 == 0 {
                b >> 4
            } else {
                b & 0x0f
            };
            proof {
                lemma_nibble_read(b);
            }
            Color::from_nibble(n)
        } else {
            None
        }
    }

    /// Fills every byte with the color repeated in both nibbles, so every
    /// pixel of the panel shows that color.
    pub fn clear_buffer(&mut self, background_color: Color)
        requires
            old(self).wf(),
        ensures
            final(self).wf(),
            final(self).spec_rotation() == old(self).spec_rotation(),
            forall|i: int|
                0 <= i < BUFFER_LEN ==> final(self).buffer_view()[i]
                    == background_color.spec_fill_byte(),
            forall|px: int, py: int|
                in_bounds(px, py) ==> final(self).pixel(px, py) == background_color.spec_nibble(),
    {
        let fb = background_color.fill_byte();
        let mut i: usize = 0;
        while i < BUFFER_LEN
            invariant
                self.wf(),
                self.spec_rotation() == old(self).spec_rotation(),
                i <= BUFFER_LEN,
                forall|j: int| 0 <= j < i ==> self.buffer_view()[j] == fb,
                fb == background_color.spec_fill_byte(),
            decreases BUFFER_LEN - i,
        {
            self.buffer.set(i, fb);
            i = i + 1;
        }
        proof {
            lemma_fill_pixels(*self, background_color);
        }
    }
}

/// The physical x coordinate of the pixel that shares a byte with x.
pub open spec fn sibling(x: int) -> int {
    if x % 2 == 0 {
        x + 1
    } else {
        x - 1
    }
}

/// Writing one nibble of a byte leaves the other nibble unchanged.
proof fn lemma_nibble_write(b: u8, n: u8, x: int)
    requires
        n < 16,
    ensures
        x % 2 == 0 ==> nibble_of(((b & 0x0f) | (n << 4)) as u8, x) == n,
        x % 2 == 0 ==> nibble_of(((b & 0x0f) | (n << 4)) as u8, x + 1) == nibble_of(b, x + 1),
        x % 2 != 0 ==> nibble_of(((b & 0xf0) | n) as u8, x) == n,
        x % 2 != 0 ==> nibble_of(((b & 0xf0) | n) as u8, x - 1) == nibble_of(b, x - 1),
{
    assert(n < 16 ==> ((b & 0x0f) | (n << 4)) / 16 == n) by (bit_vector);
    assert(((b & 0x0f) | (n << 4)) % 16 == b % 16) by (bit_vector);
    assert(n < 16 ==> ((b & 0xf0) | n) % 16 == n) by (bit_vector);
    assert(n < 16 ==> ((b & 0xf0) | n) / 16 == b / 16) by (bit_vector);
}

/// Shift and mask agree with the nibble arithmetic of the model.
proof fn lemma_nibble_read(b: u8)
    ensures
        (b >> 4) == b / 16,
        (b & 0x0f) == b % 16,
        b / 16 < 16,
        b % 16 < 16,
{
    assert((b >> 4) == b / 16) by (bit_vector);
    assert((b & 0x0f) == b % 16) by (bit_vector);
    assert(b / 16 < 16) by (bit_vector);
    assert(b % 16 < 16) by (bit_vector);
}

/// Two physical pixels that sit in one byte read the fill nibble once a
/// byte holds a color in both nibbles.
proof fn lemma_fill_pixels(d: DisplayBuffer, c: Color)
    requires
        d.wf(),
        forall|i: int| 0 <= i < BUFFER_LEN ==> d.buffer_view()[i] == c.spec_fill_byte(),
    ensures
        forall|px: int, py: int| in_bounds(px, py) ==> d.pixel(px, py) == c.spec_nibble(),
{
    let n = c.spec_nibble();
    assert(n < 8);
    let fb = c.spec_fill_byte();
    assert(fb == (n * 16 + n) as u8);
    assert forall|px: int, py: int| in_bounds(px, py) implies d.pixel(px, py) == n by {
        lemma_byte_index_range(px, py);
        let b = d.buffer_view()[byte_index(px, py)];
        assert(b == fb);
        assert(n < 8 ==> ((n * 16 + n) as u8) / 16 == n) by (bit_vector);
        assert(n < 8 ==> ((n * 16 + n) as u8) % 16 == n) by (bit_vector);
    }
}

/// A physical coordinate's byte index lies inside the buffer, and the two
/// pixels of one byte are exactly a sibling pair.
proof fn lemma_byte_index_range(x: int, y: int)
    requires
        in_bounds(x, y),
    ensures
        0 <= byte_index(x, y) < BUFFER_LEN,
        byte_index(sibling(x), y) == byte_index(x, y),
        in_bounds(sibling(x), y),
{
    let w = WIDTH as int;
    assert(y * w + x < 448 * 600) by (nonlinear_arith)
        requires
            0 <= x < 600,
            0 <= y < 448,
            w == 600,
    ;
    assert(y * w >= 0) by (nonlinear_arith)
        requires
            y >= 0,
            w == 600,
    ;
    assert((y * w) % 2 == 0) by (nonlinear_arith)
        requires
            w == 600,
    ;
    if x % 2 == 0 {
        assert(in_bounds(x + 1, y));
    }
}

/// A color written to a pixel reads back as exactly that color: its
/// palette index maps back to it.
pub proof fn lemma_color_roundtrip(c: Color)
    ensures
        Color::spec_from_nibble(c.spec_nibble()) == Some(c),
{
}

impl Color {
    /// The color a 4-bit palette index denotes, `None` for indexes above
    /// the palette.
    pub open spec fn spec_from_nibble(n: u8) -> Option<Color> {
        if n == 0 {
            Some(Color::Black)
        } else if n == 1 {
            Some(Color::White)
        } else if n == 2 {
            Some(Color::Green)
        } else if n == 3 {
            Some(Color::Blue)
        } else if n == 4 {
            Some(Color::Red)
        } else if n == 5 {
            Some(Color::Yellow)
        } else if n == 6 {
            Some(Color::Orange)
        } else if n == 7 {
            Some(Color::HiZ)
        } else {
            None
        }
    }

    /// Looks a palette index back up as a color.
    pub fn from_nibble(n: u8) -> (r: Option<Color>)
        ensures
            r == Color::spec_from_nibble(n),
    {
        if n == 0 {
            Some(Color::Black)
        } else if n == 1 {
            Some(Color::White)
        } else if n == 2 {
            Some(Color::Green)
        } else if n == 3 {
            Some(Color::Blue)
        } else if n == 4 {
            Some(Color::Red)
        } else if n == 5 {
            Some(Color::Yellow)
        } else if n == 6 {
            Some(Color::Orange)
        } else if n == 7 {
            Some(Color::HiZ)
        } else {
            None
        }
    }
}

} // verus!
