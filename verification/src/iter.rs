use vstd::prelude::*;

use crate::component::primitive::Size;
use crate::component::primitive::size::lemma_area_bound;
use crate::error::{BufferLengthMismatchError, BufferLengthMismatchResult};
use crate::pixel::{PIXEL_SIZE, Pixel};

verus! {

/// The pixel whose RGBA channels are the first four bytes of `bytes`.
pub open spec fn first_pixel(bytes: Seq<u8>) -> (u8, u8, u8, u8) {
    (bytes[0], bytes[1], bytes[2], bytes[3])
}

/// The RGBA channels of the pixels of the raw buffer `bytes`, four bytes each: pixel `i`
/// is `bytes[4 * i .. 4 * i + 4]`.
pub open spec fn rgba_pixels(bytes: Seq<u8>) -> Seq<(u8, u8, u8, u8)> {
    Seq::new(bytes.len() / 4, |i: int| (bytes[4 * i], bytes[4 * i + 1], bytes[4 * i + 2], bytes[4 * i + 3]))
}

/// Dropping the first four bytes of a buffer of whole pixels drops its first pixel.
proof fn lemma_rgba_pixels_tail(bytes: Seq<u8>)
    requires
        bytes.len() % 4 == 0,
        bytes.len() >= 4,
    ensures
        rgba_pixels(bytes.subrange(4, bytes.len() as int)) == rgba_pixels(bytes).drop_first(),
        rgba_pixels(bytes)[0] == first_pixel(bytes),
{
    let tail = bytes.subrange(4, bytes.len() as int);
    assert((bytes.len() - 4) / 4 == bytes.len() / 4 - 1) by (nonlinear_arith)
        requires bytes.len() % 4 == 0, bytes.len() >= 4;
    assert(rgba_pixels(tail) =~= rgba_pixels(bytes).drop_first());
}

/// Iterator over the pixels of a raw RGBA buffer, four bytes each.
#[derive(Debug)]
pub struct Pixels<'a> {
    rest: &'a [u8],
}

impl<'a> Pixels<'a> {
    #[verifier::type_invariant]
    spec fn inv(self) -> bool {
        self.rest@.len() % 4 == 0
    }

    /// The bytes of the pixels not handed out yet.
    pub closed spec fn spec_rest(&self) -> Seq<u8> {
        self.rest@
    }

    /// The pixels not handed out yet, in order.
    pub open spec fn spec_remaining(&self) -> Seq<(u8, u8, u8, u8)> {
        rgba_pixels(self.spec_rest())
    }

    /// Iterate over the pixels of `buffer`; fails with [`BufferLengthMismatchError`]
    /// unless its length is a multiple of [`PIXEL_SIZE`].
    pub fn new(buffer: &'a [u8]) -> (r: BufferLengthMismatchResult<Pixels<'a>>)
        ensures
            r is Ok <==> buffer@.len() % 4 == 0,
            r matches Ok(p) ==> p.spec_rest() == buffer@,
            r matches Ok(p) ==> p.spec_remaining() == rgba_pixels(buffer@),
    {
        if buffer.len() % PIXEL_SIZE != 0 {
            return Err(BufferLengthMismatchError);
        }
        Ok(Pixels { rest: buffer })
    }

    /// The next pixel, or `None` when all have been handed out.
    pub fn next(&mut self) -> (r: Option<Pixel>)
        ensures
            old(self).spec_rest().len() == 0 ==> r is None && final(self).spec_rest() == old(self).spec_rest(),
            old(self).spec_rest().len() > 0 ==> {
                &&& r matches Some(px) && px@ == first_pixel(old(self).spec_rest())
                &&& final(self).spec_rest() == old(self).spec_rest().subrange(4, old(self).spec_rest().len() as int)
            },
            old(self).spec_remaining().len() == 0 ==> r is None && final(self).spec_remaining() == old(self).spec_remaining(),
            old(self).spec_remaining().len() > 0 ==> {
                &&& r matches Some(px) && px@ == old(self).spec_remaining()[0]
                &&& final(self).spec_remaining() == old(self).spec_remaining().drop_first()
            },
    {
        proof {
            use_type_invariant(&*self);
            if self.rest@.len() > 0 {
                lemma_rgba_pixels_tail(self.rest@);
            }
        }
        if self.rest.len() == 0 {
            return None;
        }
        let px = Pixel::new([self.rest[0], self.rest[1], self.rest[2], self.rest[3]]);
        let (_, tail) = self.rest.split_at(PIXEL_SIZE);
        self.rest = tail;
        Some(px)
    }
}

/// A mutable view of the four RGBA bytes of one pixel of a raw buffer.
pub struct PixelMut<'a> {
    channels: &'a mut [u8],
}

impl<'a> PixelMut<'a> {
    #[verifier::type_invariant]
    spec fn inv(self) -> bool {
        self.channels@.len() == 4
    }

    /// The pixel's bytes, red, green, blue and alpha.
    pub closed spec fn spec_channels(&self) -> Seq<u8> {
        self.channels@
    }

    /// The pixel the bytes hold.
    pub fn pixel(&self) -> (r: Pixel)
        ensures
            r@ == first_pixel(self.spec_channels()),
    {
        proof {
            use_type_invariant(self);
        }
        Pixel::new([self.channels[0], self.channels[1], self.channels[2], self.channels[3]])
    }

    /// Set the red channel.
    pub fn set_r(&mut self, v: u8)
        ensures
            final(self).spec_channels() == old(self).spec_channels().update(0, v),
    {
        proof {
            use_type_invariant(&*self);
        }
        self.channels[0] = v;
    }

    /// Set the green channel.
    pub fn set_g(&mut self, v: u8)
        ensures
            final(self).spec_channels() == old(self).spec_channels().update(1, v),
    {
        proof {
            use_type_invariant(&*self);
        }
        self.channels[1] = v;
    }

    /// Set the blue channel.
    pub fn set_b(&mut self, v: u8)
        ensures
            final(self).spec_channels() == old(self).spec_channels().update(2, v),
    {
        proof {
            use_type_invariant(&*self);
        }
        self.channels[2] = v;
    }

    /// Set the alpha channel.
    pub fn set_a(&mut self, v: u8)
        ensures
            final(self).spec_channels() == old(self).spec_channels().update(3, v),
    {
        proof {
            use_type_invariant(&*self);
        }
        self.channels[3] = v;
    }

    /// Copy all four channels of `px`.
    pub fn copy_from_pixel(&mut self, px: Pixel)
        ensures
            final(self).spec_channels() == seq![px@.0, px@.1, px@.2, px@.3],
    {
        proof {
            use_type_invariant(&*self);
        }
        self.channels[0] = px.r();
        self.channels[1] = px.g();
        self.channels[2] = px.b();
        self.channels[3] = px.a();
        proof {
            assert(self.channels@ =~= seq![px@.0, px@.1, px@.2, px@.3]);
        }
    }
}

/// Iterator over mutable views of the pixels of a raw RGBA buffer, four bytes each.
pub struct PixelsMut<'a> {
    rest: &'a mut [u8],
}

impl<'a> PixelsMut<'a> {
    #[verifier::type_invariant]
    spec fn inv(self) -> bool {
        self.rest@.len() % 4 == 0
    }

    /// The bytes of the pixels not handed out yet.
    pub closed spec fn spec_rest(&self) -> Seq<u8> {
        self.rest@
    }

    /// Iterate over the pixels of `buffer`; fails with [`BufferLengthMismatchError`]
    /// unless its length is a multiple of [`PIXEL_SIZE`].
    pub fn new(buffer: &'a mut [u8]) -> (r: BufferLengthMismatchResult<PixelsMut<'a>>)
        ensures
            r is Ok <==> old(buffer)@.len() % 4 == 0,
            r matches Ok(p) ==> p.spec_rest() == old(buffer)@,
    {
        if buffer.len() % PIXEL_SIZE != 0 {
            return Err(BufferLengthMismatchError);
        }
        Ok(PixelsMut { rest: buffer })
    }

    /// A view of the next pixel, or `None` when all have been handed out.
    pub fn next(&mut self) -> (r: Option<PixelMut<'a>>)
        ensures
            old(self).spec_rest().len() == 0 ==> r is None && final(self).spec_rest() == old(self).spec_rest(),
            old(self).spec_rest().len() > 0 ==> {
                &&& r matches Some(px) && px.spec_channels() == old(self).spec_rest().subrange(0, 4)
                &&& final(self).spec_rest() == old(self).spec_rest().subrange(4, old(self).spec_rest().len() as int)
            },
    {
        proof {
            use_type_invariant(&*self);
        }
        if self.rest.len() == 0 {
            return None;
        }
        let mut rest: &'a mut [u8] = &mut [];
        core::mem::swap(&mut rest, &mut self.rest);
        let (head, tail) = rest.split_at_mut(PIXEL_SIZE);
        self.rest = tail;
        Some(PixelMut { channels: head })
    }
}

/// Iterator over the pixels of one row of a raw RGBA buffer, with their positions.
#[derive(Debug)]
pub struct Row<'a> {
    pixels: Pixels<'a>,
    position: usize,
}

impl<'a> Row<'a> {
    #[verifier::type_invariant]
    spec fn inv(self) -> bool {
        self.position + self.pixels.spec_rest().len() / 4 <= usize::MAX
    }

    /// The bytes of the pixels not handed out yet.
    pub closed spec fn spec_rest(&self) -> Seq<u8> {
        self.pixels.spec_rest()
    }

    /// The position of the next pixel.
    pub closed spec fn spec_position(&self) -> int {
        self.position as int
    }

    /// The pixels not handed out yet, in order, each with its position.
    pub open spec fn spec_remaining(&self) -> Seq<(int, (u8, u8, u8, u8))> {
        let pixels = rgba_pixels(self.spec_rest());
        Seq::new(pixels.len(), |k: int| (self.spec_position() + k, pixels[k]))
    }

    /// Iterate over the pixels of the row `buffer`, from position 0; fails with
    /// [`BufferLengthMismatchError`] unless its length is a multiple of [`PIXEL_SIZE`].
    pub fn new(buffer: &'a [u8]) -> (r: BufferLengthMismatchResult<Row<'a>>)
        ensures
            r is Ok <==> buffer@.len() % 4 == 0,
            r matches Ok(row) ==> row.spec_rest() == buffer@ && row.spec_position() == 0,
            r matches Ok(row) ==> row.spec_remaining() == Seq::new(
                rgba_pixels(buffer@).len(),
                |x: int| (x, rgba_pixels(buffer@)[x]),
            ),
    {
        let _ = buffer.len();
        let pixels = match Pixels::new(buffer) {
            Ok(pixels) => pixels,
            Err(e) => return Err(e),
        };
        Ok(Row { pixels, position: 0 })
    }

    /// The next pixel with its position, or `None` when all have been handed out.
    pub fn next(&mut self) -> (r: Option<(usize, Pixel)>)
        ensures
            old(self).spec_rest().len() == 0 ==> r is None && final(self).spec_rest() == old(self).spec_rest()
                && final(self).spec_position() == old(self).spec_position(),
            old(self).spec_rest().len() > 0 ==> {
                &&& r matches Some(item) && item.0 == old(self).spec_position() && item.1@ == first_pixel(old(self).spec_rest())
                &&& final(self).spec_rest() == old(self).spec_rest().subrange(4, old(self).spec_rest().len() as int)
                &&& final(self).spec_position() == old(self).spec_position() + 1
            },
            old(self).spec_remaining().len() == 0 ==> r is None && final(self).spec_remaining() == old(self).spec_remaining(),
            old(self).spec_remaining().len() > 0 ==> {
                &&& r matches Some(item) && (item.0 as int, item.1@) == old(self).spec_remaining()[0]
                &&& final(self).spec_remaining() == old(self).spec_remaining().drop_first()
            },
    {
        proof {
            use_type_invariant(&*self);
            use_type_invariant(&self.pixels);
            if self.pixels.spec_rest().len() > 0 {
                lemma_rgba_pixels_tail(self.pixels.spec_rest());
            }
        }
        let mut pixels = Pixels { rest: &[] };
        core::mem::swap(&mut pixels, &mut self.pixels);
        let next = pixels.next();
        core::mem::swap(&mut pixels, &mut self.pixels);
        match next {
            Some(pixel) => {
                let position = self.position;
                self.position = self.position + 1;
                proof {
                    assert(self.spec_remaining() =~= old(self).spec_remaining().drop_first());
                }
                Some((position, pixel))
            },
            None => None,
        }
    }
}

/// Iterator over mutable views of the pixels of one row of a raw RGBA buffer, with their
/// positions.
pub struct RowMut<'a> {
    pixels: PixelsMut<'a>,
    position: usize,
}

impl<'a> RowMut<'a> {
    #[verifier::type_invariant]
    spec fn inv(self) -> bool {
        self.position + self.pixels.spec_rest().len() / 4 <= usize::MAX
    }

    /// The bytes of the pixels not handed out yet.
    pub closed spec fn spec_rest(&self) -> Seq<u8> {
        self.pixels.spec_rest()
    }

    /// The position of the next pixel.
    pub closed spec fn spec_position(&self) -> int {
        self.position as int
    }

    /// Iterate over the pixels of the row `buffer`, from position 0; fails with
    /// [`BufferLengthMismatchError`] unless its length is a multiple of [`PIXEL_SIZE`].
    pub fn new(buffer: &'a mut [u8]) -> (r: BufferLengthMismatchResult<RowMut<'a>>)
        ensures
            r is Ok <==> old(buffer)@.len() % 4 == 0,
            r matches Ok(row) ==> row.spec_rest() == old(buffer)@ && row.spec_position() == 0,
    {
        let _ = buffer.len();
        let pixels = match PixelsMut::new(buffer) {
            Ok(pixels) => pixels,
            Err(e) => return Err(e),
        };
        Ok(RowMut { pixels, position: 0 })
    }

    /// A view of the next pixel with its position, or `None` when all have been handed
    /// out.
    pub fn next(&mut self) -> (r: Option<(usize, PixelMut<'a>)>)
        ensures
            old(self).spec_rest().len() == 0 ==> r is None && final(self).spec_rest() == old(self).spec_rest()
                && final(self).spec_position() == old(self).spec_position(),
            old(self).spec_rest().len() > 0 ==> {
                &&& r matches Some(item) && item.0 == old(self).spec_position() && item.1.spec_channels() == old(self).spec_rest().subrange(0, 4)
                &&& final(self).spec_rest() == old(self).spec_rest().subrange(4, old(self).spec_rest().len() as int)
                &&& final(self).spec_position() == old(self).spec_position() + 1
            },
    {
        proof {
            use_type_invariant(&*self);
            use_type_invariant(&self.pixels);
        }
        let mut pixels = PixelsMut { rest: &mut [] };
        core::mem::swap(&mut pixels, &mut self.pixels);
        let next = pixels.next();
        core::mem::swap(&mut pixels, &mut self.pixels);
        match next {
            Some(pixel) => {
                let position = self.position;
                self.position = self.position + 1;
                Some((position, pixel))
            },
            None => None,
        }
    }
}

/// The number of bytes of a raw RGBA buffer of an image of `size`, which must not exceed
/// `usize::MAX` for a buffer to hold them; `None` where it does.
fn buffer_len(size: Size) -> (r: Option<usize>)
    ensures
        r is Some <==> size@.0 * size@.1 * 4 <= usize::MAX,
        r matches Some(n) ==> n == size@.0 * size@.1 * 4,
        size@.0 >= 1,
        size@.1 >= 1,
{
    let (width, height) = (size.width(), size.height());
    proof {
        lemma_area_bound(width as int, height as int);
    }
    let area = width * height;
    if area > usize::MAX / PIXEL_SIZE {
        return None;
    }
    Some(area * PIXEL_SIZE)
}

/// Iterator over the rows of a raw RGBA buffer, with their positions.
pub struct Rows<'a> {
    rest: &'a [u8],
    row_len: usize,
    position: usize,
}

impl<'a> Rows<'a> {
    #[verifier::type_invariant]
    spec fn inv(self) -> bool {
        &&& self.row_len > 0
        &&& self.row_len % 4 == 0
        &&& self.rest@.len() % (self.row_len as nat) == 0
        &&& self.position + self.rest@.len() / (self.row_len as nat) <= usize::MAX
    }

    /// The bytes of the rows not handed out yet.
    pub closed spec fn spec_rest(&self) -> Seq<u8> {
        self.rest@
    }

    /// The number of bytes of a row.
    pub closed spec fn spec_row_len(&self) -> int {
        self.row_len as int
    }

    /// The position of the next row.
    pub closed spec fn spec_position(&self) -> int {
        self.position as int
    }

    /// The rows not handed out yet, in order, each with its position and its bytes.
    pub open spec fn spec_remaining(&self) -> Seq<(int, Seq<u8>)> {
        let rest = self.spec_rest();
        let row_len = self.spec_row_len();
        Seq::new(
            ((rest.len() as int) / row_len) as nat,
            |k: int| (self.spec_position() + k, rest.subrange(k * row_len, (k + 1) * row_len)),
        )
    }

    /// Iterate over the rows of `buffer`, the raw RGBA buffer of an image of `size`;
    /// fails with [`BufferLengthMismatchError`] unless its length is
    /// `width * height * PIXEL_SIZE`.
    pub fn new(buffer: &'a [u8], size: Size) -> (r: BufferLengthMismatchResult<Rows<'a>>)
        ensures
            r is Ok <==> buffer@.len() == size@.0 * size@.1 * 4,
            r matches Ok(rows) ==> rows.spec_rest() == buffer@ && rows.spec_row_len() == size@.0 * 4 && rows.spec_position() == 0,
            r matches Ok(rows) ==> rows.spec_remaining() == Seq::new(
                size@.1 as nat,
                |y: int| (y, buffer@.subrange(y * (size@.0 * 4), (y + 1) * (size@.0 * 4))),
            ),
    {
        let actual = buffer.len();
        let len = match buffer_len(size) {
            Some(len) => len,
            None => return Err(BufferLengthMismatchError),
        };
        if actual != len {
            return Err(BufferLengthMismatchError);
        }
        let width = size.width();
        proof {
            assert(width * 4 <= size@.0 * size@.1 * 4) by (nonlinear_arith)
                requires width == size@.0, size@.1 >= 1, width >= 1;
        }
        let row_len = width * PIXEL_SIZE;
        proof {
            let h = size@.1;
            assert(buffer@.len() == h * (row_len as int)) by (nonlinear_arith)
                requires buffer@.len() == size@.0 * size@.1 * 4, row_len == size@.0 * 4, h == size@.1;
            vstd::arithmetic::div_mod::lemma_mod_multiples_basic(h, row_len as int);
            vstd::arithmetic::div_mod::lemma_div_multiples_vanish(h, row_len as int);
        }
        Ok(Rows { rest: buffer, row_len, position: 0 })
    }

    /// The next row with its position, or `None` when all have been handed out.
    pub fn next(&mut self) -> (r: Option<(usize, Row<'a>)>)
        ensures
            final(self).spec_row_len() == old(self).spec_row_len(),
            old(self).spec_rest().len() == 0 ==> r is None && final(self).spec_rest() == old(self).spec_rest()
                && final(self).spec_position() == old(self).spec_position(),
            old(self).spec_rest().len() > 0 ==> {
                &&& r matches Some(item) && item.0 == old(self).spec_position()
                    && item.1.spec_rest() == old(self).spec_rest().subrange(0, old(self).spec_row_len())
                    && item.1.spec_position() == 0
                &&& final(self).spec_rest() == old(self).spec_rest().subrange(old(self).spec_row_len(), old(self).spec_rest().len() as int)
                &&& final(self).spec_position() == old(self).spec_position() + 1
            },
            old(self).spec_remaining().len() == 0 ==> r is None && final(self).spec_remaining() == old(self).spec_remaining(),
            old(self).spec_remaining().len() > 0 ==> {
                &&& r matches Some(item) && (item.0 as int, item.1.spec_rest()) == old(self).spec_remaining()[0]
                    && item.1.spec_position() == 0
                &&& final(self).spec_remaining() == old(self).spec_remaining().drop_first()
            },
    {
        proof {
            use_type_invariant(&*self);
        }
        if self.rest.len() == 0 {
            return None;
        }
        let ghost old_len = self.rest@.len();
        let row_len = self.row_len;
        proof {
            vstd::arithmetic::div_mod::lemma_fundamental_div_mod(old_len as int, row_len as int);
            assert(old_len / (row_len as nat) >= 1) by (nonlinear_arith)
                requires old_len > 0, old_len % (row_len as nat) == 0, row_len > 0;
            assert(row_len <= old_len) by (nonlinear_arith)
                requires old_len / (row_len as nat) >= 1, row_len > 0;
            vstd::arithmetic::div_mod::lemma_mod_sub_multiples_vanish(old_len as int, row_len as int);
            vstd::arithmetic::div_mod::lemma_div_minus_one(old_len as int, row_len as int);
        }
        let ghost old_rest = self.rest@;
        let ghost old_remaining = self.spec_remaining();
        let (head, tail) = self.rest.split_at(row_len);
        let row = Row::new(head).unwrap();
        let position = self.position;
        self.rest = tail;
        self.position = self.position + 1;
        proof {
            let rl = row_len as int;
            let n = old_len / (row_len as nat);
            assert(old_remaining.len() == n);
            assert(self.spec_remaining().len() == n - 1);
            assert forall|k: int| 0 <= k < n - 1 implies #[trigger] self.spec_remaining()[k] == old_remaining[k + 1] by {
                assert((k + 1) * rl == k * rl + rl && (k + 2) * rl == (k + 1) * rl + rl) by (nonlinear_arith);
                assert((k + 2) * rl <= old_len && 0 <= k * rl) by (nonlinear_arith)
                    requires 0 <= k < n - 1, n == old_len / (rl as nat), rl > 0, old_len % (rl as nat) == 0;
                assert(tail@.subrange(k * rl, (k + 1) * rl) =~= old_rest.subrange((k + 1) * rl, (k + 2) * rl));
            }
            assert(self.spec_remaining() =~= old_remaining.drop_first());
            assert(0 * rl == 0 && (0 + 1) * rl == rl) by (nonlinear_arith);
            assert(head@ =~= old_rest.subrange(0 * rl, (0 + 1) * rl));
        }
        Some((position, row))
    }
}

/// Iterator over mutable views of the rows of a raw RGBA buffer, with their positions.
pub struct RowsMut<'a> {
    rest: &'a mut [u8],
    row_len: usize,
    position: usize,
}

impl<'a> RowsMut<'a> {
    #[verifier::type_invariant]
    spec fn inv(self) -> bool {
        &&& self.row_len > 0
        &&& self.row_len % 4 == 0
        &&& self.rest@.len() % (self.row_len as nat) == 0
        &&& self.position + self.rest@.len() / (self.row_len as nat) <= usize::MAX
    }

    /// The bytes of the rows not handed out yet.
    pub closed spec fn spec_rest(&self) -> Seq<u8> {
        self.rest@
    }

    /// The number of bytes of a row.
    pub closed spec fn spec_row_len(&self) -> int {
        self.row_len as int
    }

    /// The position of the next row.
    pub closed spec fn spec_position(&self) -> int {
        self.position as int
    }

    /// Iterate over the rows of `buffer`, the raw RGBA buffer of an image of `size`;
    /// fails with [`BufferLengthMismatchError`] unless its length is
    /// `width * height * PIXEL_SIZE`.
    pub fn new(buffer: &'a mut [u8], size: Size) -> (r: BufferLengthMismatchResult<RowsMut<'a>>)
        ensures
            r is Ok <==> old(buffer)@.len() == size@.0 * size@.1 * 4,
            r matches Ok(rows) ==> rows.spec_rest() == old(buffer)@ && rows.spec_row_len() == size@.0 * 4 && rows.spec_position() == 0,
    {
        let actual = buffer.len();
        let len = match buffer_len(size) {
            Some(len) => len,
            None => return Err(BufferLengthMismatchError),
        };
        if actual != len {
            return Err(BufferLengthMismatchError);
        }
        let width = size.width();
        proof {
            assert(width * 4 <= size@.0 * size@.1 * 4) by (nonlinear_arith)
                requires width == size@.0, size@.1 >= 1, width >= 1;
        }
        let row_len = width * PIXEL_SIZE;
        proof {
            let h = size@.1;
            assert(buffer@.len() == h * (row_len as int)) by (nonlinear_arith)
                requires buffer@.len() == size@.0 * size@.1 * 4, row_len == size@.0 * 4, h == size@.1;
            vstd::arithmetic::div_mod::lemma_mod_multiples_basic(h, row_len as int);
            vstd::arithmetic::div_mod::lemma_div_multiples_vanish(h, row_len as int);
        }
        Ok(RowsMut { rest: buffer, row_len, position: 0 })
    }

    /// A view of the next row with its position, or `None` when all have been handed out.
    pub fn next(&mut self) -> (r: Option<(usize, RowMut<'a>)>)
        ensures
            final(self).spec_row_len() == old(self).spec_row_len(),
            old(self).spec_rest().len() == 0 ==> r is None && final(self).spec_rest() == old(self).spec_rest()
                && final(self).spec_position() == old(self).spec_position(),
            old(self).spec_rest().len() > 0 ==> {
                &&& r matches Some(item) && item.0 == old(self).spec_position()
                    && item.1.spec_rest() == old(self).spec_rest().subrange(0, old(self).spec_row_len())
                    && item.1.spec_position() == 0
                &&& final(self).spec_rest() == old(self).spec_rest().subrange(old(self).spec_row_len(), old(self).spec_rest().len() as int)
                &&& final(self).spec_position() == old(self).spec_position() + 1
            },
    {
        proof {
            use_type_invariant(&*self);
        }
        if self.rest.len() == 0 {
            return None;
        }
        let ghost old_len = self.rest@.len();
        let row_len = self.row_len;
        proof {
            vstd::arithmetic::div_mod::lemma_fundamental_div_mod(old_len as int, row_len as int);
            assert(old_len / (row_len as nat) >= 1) by (nonlinear_arith)
                requires old_len > 0, old_len % (row_len as nat) == 0, row_len > 0;
            assert(row_len <= old_len) by (nonlinear_arith)
                requires old_len / (row_len as nat) >= 1, row_len > 0;
            vstd::arithmetic::div_mod::lemma_mod_sub_multiples_vanish(old_len as int, row_len as int);
            vstd::arithmetic::div_mod::lemma_div_minus_one(old_len as int, row_len as int);
        }
        let mut rest: &'a mut [u8] = &mut [];
        core::mem::swap(&mut rest, &mut self.rest);
        let (head, tail) = rest.split_at_mut(row_len);
        let row = RowMut::new(head).unwrap();
        let position = self.position;
        self.rest = tail;
        self.position = self.position + 1;
        Some((position, row))
    }
}

} // verus!
