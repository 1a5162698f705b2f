use vstd::prelude::*;

verus! {

/// A single pixel color: red, green, blue and alpha channels, 8 bits each.
pub type Color = (u8, u8, u8, u8);

/// An in-memory RGBA8 pixel buffer: a `width` x `height` grid of pixels,
/// stored row-major as 4 consecutive bytes per pixel.
pub struct Image {
    buf: Vec<u8>,
    width: u32,
    height: u32,
}

/// Every byte of an in-bounds pixel lies inside the backing storage.
proof fn lemma_byte_index_bounds(w: u32, h: u32, x: int, y: int)
    by (nonlinear_arith)
    requires
        0 <= x < w,
        0 <= y < h,
    ensures
        0 <= (y * w + x) * 4,
        (y * w + x) * 4 + 3 < w * h * 4,
{
}

/// Distinct in-bounds coordinates address distinct pixels of the row-major
/// layout.
proof fn lemma_pixel_index_injective(w: u32, x1: int, y1: int, x2: int, y2: int)
    by (nonlinear_arith)
    requires
        0 <= x1 < w,
        0 <= x2 < w,
        0 <= y1,
        0 <= y2,
        x1 != x2 || y1 != y2,
    ensures
        y1 * w + x1 != y2 * w + x2,
{
}

/// A byte offset of the backing storage decomposes into the row-major pixel
/// coordinates and channel that it belongs to.
proof fn lemma_byte_index_decompose(w: u32, h: u32, n: int)
    by (nonlinear_arith)
    requires
        0 < w,
        0 < h,
        0 <= n < w * h * 4,
    ensures
        0 <= (n / 4) % (w as int) < w,
        0 <= (n / 4) / (w as int) < h,
        (((n / 4) / (w as int)) * w + (n / 4) % (w as int)) * 4 + n % 4 == n,
        0 <= n % 4 < 4,
{
}

/// Two well-formed buffers of the same dimensions that agree on every pixel
/// have identical backing bytes: the pixel grid determines the whole buffer.
pub proof fn lemma_pixels_determine_bytes(a: Image, b: Image)
    requires
        a.wf(),
        b.wf(),
        a.spec_width() == b.spec_width(),
        a.spec_height() == b.spec_height(),
        forall|x: int, y: int| a.in_bounds(x, y) ==> a.color_at(x, y) == b.color_at(x, y),
    ensures
        a.bytes() == b.bytes(),
{
    let w = a.spec_width();
    let h = a.spec_height();
    if w == 0 || h == 0 {
        assert(w * h * 4 == 0) by (nonlinear_arith)
            requires
                w == 0 || h == 0,
        ;
        assert(a.bytes() =~= b.bytes());
    } else {
        assert forall|n: int| 0 <= n < a.bytes().len() implies a.bytes()[n] == b.bytes()[n] by {
            lemma_byte_index_decompose(w, h, n);
            let x = (n / 4) % (w as int);
            let y = (n / 4) / (w as int);
            assert(a.in_bounds(x, y));
            assert(a.color_at(x, y) == b.color_at(x, y));
        }
        assert(a.bytes() =~= b.bytes());
    }
}

/// Setting every pixel to one color is idempotent: any two same-sized
/// well-formed buffers whose pixels all hold `col` — for instance the buffer
/// after one `clear(col)` and the buffer after a second — have identical
/// bytes.
pub proof fn lemma_uniform_fill_unique(a: Image, b: Image, col: Color)
    requires
        a.wf(),
        b.wf(),
        a.spec_width() == b.spec_width(),
        a.spec_height() == b.spec_height(),
        forall|x: int, y: int| a.in_bounds(x, y) ==> a.color_at(x, y) == col,
        forall|x: int, y: int| b.in_bounds(x, y) ==> b.color_at(x, y) == col,
    ensures
        a.bytes() == b.bytes(),
{
    lemma_pixels_determine_bytes(a, b);
}

impl Image {
    /// The fixed width, in pixels.
    pub closed spec fn spec_width(self) -> u32 {
        self.width
    }

    /// The fixed height, in pixels.
    pub closed spec fn spec_height(self) -> u32 {
        self.height
    }

    /// The raw bytes backing the buffer.
    pub closed spec fn bytes(self) -> Seq<u8> {
        self.buf@
    }

    /// Well-formedness: the backing storage holds exactly 4 bytes per pixel.
    pub open spec fn wf(self) -> bool {
        self.bytes().len() == self.spec_width() * self.spec_height() * 4
    }

    /// Whether `(x, y)` addresses a pixel of the grid.
    pub open spec fn in_bounds(self, x: int, y: int) -> bool {
        0 <= x < self.spec_width() && 0 <= y < self.spec_height()
    }

    /// Offset of the first byte (the red channel) of pixel `(x, y)`.
    pub open spec fn byte_index(self, x: int, y: int) -> int {
        (y * self.spec_width() + x) * 4
    }

    /// The color of pixel `(x, y)`, read out of the backing bytes.
    pub open spec fn color_at(self, x: int, y: int) -> Color
        recommends
            self.wf(),
            self.in_bounds(x, y),
    {
        let i = self.byte_index(x, y);
        (self.bytes()[i], self.bytes()[i + 1], self.bytes()[i + 2], self.bytes()[i + 3])
    }

    /// Allocate a `width` x `height` buffer with every pixel fully
    /// transparent black.
    pub fn new(width: u32, height: u32) -> (img: Image)
        requires
            width * height * 4 <= usize::MAX,
        ensures
            img.wf(),
            img.spec_width() == width,
            img.spec_height() == height,
            forall|x: int, y: int|
                img.in_bounds(x, y) ==> img.color_at(x, y) == ((0u8, 0u8, 0u8, 0u8)),
    {
        let len: usize = (width as usize) * (height as usize) * 4;
        let mut buf: Vec<u8> = Vec::new();
        #[verifier::loop_isolation(false)]
        for i in 0..len
            invariant
                buf@.len() == i,
                forall|k: int| 0 <= k < i ==> buf@[k] == 0u8,
        {
            buf.push(0u8);
        }
        let img = Image { buf, width, height };
        proof {
            assert forall|x: int, y: int| img.in_bounds(x, y) implies img.color_at(x, y)
                == ((0u8, 0u8, 0u8, 0u8)) by {
                lemma_byte_index_bounds(width, height, x, y);
            }
        }
        img
    }

    /// Wrap caller-supplied bytes directly as the buffer, taking ownership.
    /// The bytes must already hold exactly 4 bytes per pixel.
    pub fn from_bytes(buf: Vec<u8>, width: u32, height: u32) -> (img: Image)
        requires
            buf@.len() == width * height * 4,
        ensures
            img.wf(),
            img.spec_width() == width,
            img.spec_height() == height,
            img.bytes() == buf@,
    {
        Image { buf, width, height }
    }

    /// Wrap caller-supplied bytes as a buffer after checking their length
    /// against the dimensions; `None` when the length does not match.
    pub fn from_bytes_checked(buf: Vec<u8>, width: u32, height: u32) -> (r: Option<Image>)
        ensures
            buf@.len() == width * height * 4 ==> (match r {
                Some(img) => {
                    &&& img.wf()
                    &&& img.spec_width() == width
                    &&& img.spec_height() == height
                    &&& img.bytes() == buf@
                },
                None => false,
            }),
            buf@.len() != width * height * 4 ==> r is None,
    {
        proof {
            assert((width as int) * (height as int) * 4 < u128::MAX) by (nonlinear_arith);
        }
        if (buf.len() as u128) == (width as u128) * (height as u128) * 4 {
            Some(Image::from_bytes(buf, width, height))
        } else {
            None
        }
    }

    pub fn width(&self) -> (w: u32)
        ensures
            w == self.spec_width(),
    {
        self.width
    }

    pub fn height(&self) -> (h: u32)
        ensures
            h == self.spec_height(),
    {
        self.height
    }

    /// The color of pixel `(x, y)`. The coordinates must be in bounds; no
    /// run-time check is made, so loops that have already established the
    /// bounds pay nothing extra here.
    pub fn at(&self, x: u32, y: u32) -> (col: Color)
        requires
            self.wf(),
            x < self.spec_width(),
            y < self.spec_height(),
        ensures
            col == self.color_at(x as int, y as int),
    {
        // Reading the length as a usize bounds the index arithmetic below.
        let n: usize = self.buf.len();
        proof {
            lemma_byte_index_bounds(self.width, self.height, x as int, y as int);
        }
        let i: usize = ((y as usize) * (self.width as usize) + (x as usize)) * 4;
        (self.buf[i], self.buf[i + 1], self.buf[i + 2], self.buf[i + 3])
    }

    /// The color of pixel `(x, y)`, or `None` when the coordinates fall
    /// outside the grid.
    pub fn at_checked(&self, x: u32, y: u32) -> (r: Option<Color>)
        requires
            self.wf(),
        ensures
            self.in_bounds(x as int, y as int) ==> r == Some(self.color_at(x as int, y as int)),
            !self.in_bounds(x as int, y as int) ==> r is None,
    {
        if x < self.width && y < self.height {
            Some(self.at(x, y))
        } else {
            None
        }
    }

    /// Write `col` into pixel `(x, y)`. Coordinates outside the grid are
    /// silently ignored: no byte changes, no error is raised.
    pub fn set(&mut self, x: u32, y: u32, col: Color)
        requires
            old(self).wf(),
        ensures
            final(self).wf(),
            final(self).spec_width() == old(self).spec_width(),
            final(self).spec_height() == old(self).spec_height(),
            forall|i: int, j: int|
                old(self).in_bounds(i, j) ==> final(self).color_at(i, j) == (if i == x && j == y {
                    col
                } else {
                    old(self).color_at(i, j)
                }),
            !old(self).in_bounds(x as int, y as int) ==> *final(self) == *old(self),
    {
        if x >= self.width || y >= self.height {
            return ;
        }
        // Reading the length as a usize bounds the index arithmetic below.
        let n: usize = self.buf.len();
        proof {
            lemma_byte_index_bounds(self.width, self.height, x as int, y as int);
        }
        let i: usize = ((y as usize) * (self.width as usize) + (x as usize)) * 4;
        self.buf[i] = col.0;
        self.buf[i + 1] = col.1;
        self.buf[i + 2] = col.2;
        self.buf[i + 3] = col.3;
        proof {
            assert forall|a: int, b: int|
                old(self).in_bounds(a, b) && (a != x || b != y) implies self.color_at(a, b)
                == old(self).color_at(a, b) by {
                lemma_byte_index_bounds(self.width, self.height, a, b);
                lemma_pixel_index_injective(self.width, a, b, x as int, y as int);
            }
        }
    }

    /// Set every pixel of the buffer to `col`.
    pub fn clear(&mut self, col: Color)
        requires
            old(self).wf(),
        ensures
            final(self).wf(),
            final(self).spec_width() == old(self).spec_width(),
            final(self).spec_height() == old(self).spec_height(),
            forall|i: int, j: int|
                final(self).in_bounds(i, j) ==> final(self).color_at(i, j) == col,
    {
        let w = self.width;
        let h = self.height;
        #[verifier::loop_isolation(false)]
        for y in 0..h
            invariant
                self.wf(),
                self.spec_width() == w,
                self.spec_height() == h,
                forall|i: int, j: int|
                    self.in_bounds(i, j) && j < y ==> self.color_at(i, j) == col,
        {
            #[verifier::loop_isolation(false)]
            for x in 0..w
                invariant
                    self.wf(),
                    self.spec_width() == w,
                    self.spec_height() == h,
                    forall|i: int, j: int|
                        self.in_bounds(i, j) && (j < y || (j == y && i < x))
                            ==> self.color_at(i, j) == col,
            {
                self.set(x, y, col);
            }
        }
    }

    /// Fill the closed rectangle whose corners are `(x, y)` and
    /// `(x + w, y + h)` — both ends inclusive, so `(w + 1) * (h + 1)`
    /// coordinates are touched. Parts of the rectangle that fall outside the
    /// grid are silently clipped.
    pub fn draw_rect(&mut self, x: u32, y: u32, w: u32, h: u32, col: Color)
        requires
            old(self).wf(),
            x + w <= u32::MAX,
            y + h <= u32::MAX,
        ensures
            final(self).wf(),
            final(self).spec_width() == old(self).spec_width(),
            final(self).spec_height() == old(self).spec_height(),
            forall|i: int, j: int|
                old(self).in_bounds(i, j) ==> final(self).color_at(i, j) == (if x <= i <= x + w
                    && y <= j <= y + h {
                    col
                } else {
                    old(self).color_at(i, j)
                }),
    {
        let x_end: u32 = x + w;
        let y_end: u32 = y + h;
        let mut xx: u64 = x as u64;
        #[verifier::loop_isolation(false)]
        while xx <= x_end as u64
            invariant
                x as u64 <= xx <= x_end as u64 + 1,
                self.wf(),
                self.spec_width() == old(self).spec_width(),
                self.spec_height() == old(self).spec_height(),
                forall|i: int, j: int|
                    self.in_bounds(i, j) ==> self.color_at(i, j) == (if x <= i < xx && y <= j
                        <= y_end {
                        col
                    } else {
                        old(self).color_at(i, j)
                    }),
            decreases x_end as u64 + 1 - xx,
        {
            let mut yy: u64 = y as u64;
            #[verifier::loop_isolation(false)]
            while yy <= y_end as u64
                invariant
                    xx <= x_end as u64,
                    y as u64 <= yy <= y_end as u64 + 1,
                    self.wf(),
                    self.spec_width() == old(self).spec_width(),
                    self.spec_height() == old(self).spec_height(),
                    forall|i: int, j: int|
                        self.in_bounds(i, j) ==> self.color_at(i, j) == (if (x <= i < xx && y <= j
                            <= y_end) || (i == xx && y <= j < yy) {
                            col
                        } else {
                            old(self).color_at(i, j)
                        }),
                decreases y_end as u64 + 1 - yy,
            {
                self.set(xx as u32, yy as u32, col);
                yy = yy + 1;
            }
            xx = xx + 1;
        }
    }

    /// Read access to the raw backing bytes, for handing the buffer to a
    /// codec.
    pub fn as_bytes(&self) -> (r: &Vec<u8>)
        ensures
            r@ == self.bytes(),
    {
        &self.buf
    }
}

} // verus!
