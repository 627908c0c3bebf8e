//! The frame's pixel storage. It is held as one flat byte vector (R, G, B, A
//! per pixel, row-major) or, while it is being filled, handed out as a
//! sequence of pixel records; it is never held in both forms at once.

use vstd::prelude::*;

use crate::pixel::{channel, Pixel};

verus! {

/// The flat byte layout of a sequence of pixels: four bytes per pixel, in
/// order.
pub open spec fn flatten(pixels: Seq<Pixel>) -> Seq<u8> {
    Seq::new((4 * pixels.len()) as nat, |i: int| channel(pixels[i / 4], i % 4))
}

/// The pixel records of a flat byte layout: one per group of four bytes.
pub open spec fn nest(bytes: Seq<u8>) -> Seq<Pixel> {
    Seq::new(
        bytes.len() / 4,
        |k: int| Pixel { r: bytes[4 * k], g: bytes[4 * k + 1], b: bytes[4 * k + 2], a: bytes[4 * k + 3] },
    )
}

/// `bytes` with the four bytes from `at` on replaced by those of `p`.
pub open spec fn with_pixel(bytes: Seq<u8>, at: int, p: Pixel) -> Seq<u8> {
    bytes.update(at, p.r).update(at + 1, p.g).update(at + 2, p.b).update(at + 3, p.a)
}

/// Reading the byte layout back as pixels gives the pixels that were laid
/// out.
pub proof fn lemma_nest_flatten(pixels: Seq<Pixel>)
    ensures
        nest(flatten(pixels)) == pixels,
{
    let f = flatten(pixels);
    assert forall|k: int| 0 <= k < pixels.len() implies #[trigger] nest(f)[k] == pixels[k] by {
        assert((4 * k) / 4 == k && (4 * k) % 4 == 0);
        assert((4 * k + 1) / 4 == k && (4 * k + 1) % 4 == 1);
        assert((4 * k + 2) / 4 == k && (4 * k + 2) % 4 == 2);
        assert((4 * k + 3) / 4 == k && (4 * k + 3) % 4 == 3);
    }
    assert(nest(f) =~= pixels);
}

/// Laying out the pixel records of a byte sequence whose length is a whole
/// number of pixels gives those bytes back.
pub proof fn lemma_flatten_nest(bytes: Seq<u8>)
    requires
        bytes.len() % 4 == 0,
    ensures
        flatten(nest(bytes)) == bytes,
{
    let n = nest(bytes);
    assert forall|i: int| 0 <= i < bytes.len() implies #[trigger] flatten(n)[i] == bytes[i] by {
        let k = i / 4;
        assert(i == 4 * k + i % 4);
    }
    assert(flatten(n) =~= bytes);
}

/// The frame's storage, with the length of one row in pixels.
pub struct PixelBuffer {
    buffer: Option<Vec<u8>>,
    row_length: usize,
}

impl PixelBuffer {
    /// The bytes held, or `None` while they are handed out as pixels.
    pub closed spec fn data(&self) -> Option<Seq<u8>> {
        match self.buffer {
            Some(v) => Some(v@),
            None => None,
        }
    }

    /// The length of one row, in pixels.
    pub closed spec fn row_len(&self) -> nat {
        self.row_length as nat
    }

    /// The storage currently holds its bytes.
    pub open spec fn is_held(&self) -> bool {
        self.data() is Some
    }

    /// The bytes held (meaningful when `is_held`).
    pub open spec fn bytes(&self) -> Seq<u8> {
        self.data().unwrap()
    }

    /// The bytes held are a vector's, so their count fits in a usize.
    pub proof fn lemma_bytes_fit(&self)
        requires
            self.is_held(),
        ensures
            self.bytes().len() <= usize::MAX,
    {
        let v = self.buffer.unwrap();
        assert(v@.len() == v.len());
    }

    /// A `width` x `height` frame with every byte zero.
    pub fn new(width: usize, height: usize) -> (pb: PixelBuffer)
        requires
            width * height * 4 <= usize::MAX,
        ensures
            pb.data() == Some(Seq::new((width * height * 4) as nat, |i: int| 0u8)),
            pb.row_len() == width,
    {
        let mut buffer: Vec<u8> = Vec::new();
        let mut y: usize = 0;
        while y < height
            invariant
                y <= height,
                width * height * 4 <= usize::MAX,
                buffer@.len() == y * width * 4,
                forall|i: int| 0 <= i < buffer@.len() ==> buffer@[i] == 0u8,
            decreases height - y,
        {
            assert((y + 1) * width * 4 <= width * height * 4) by (nonlinear_arith)
                requires
                    y < height,
            ;
            let mut x: usize = 0;
            while x < width
                invariant
                    x <= width,
                    y < height,
                    (y + 1) * width * 4 <= usize::MAX,
                    buffer@.len() == y * width * 4 + x * 4,
                    forall|i: int| 0 <= i < buffer@.len() ==> buffer@[i] == 0u8,
                decreases width - x,
            {
                assert(y * width * 4 + x * 4 + 4 <= (y + 1) * width * 4) by (nonlinear_arith)
                    requires
                        x < width,
                ;
                buffer.push(0);
                buffer.push(0);
                buffer.push(0);
                buffer.push(0);
                x = x + 1;
            }
            assert(y * width * 4 + width * 4 == (y + 1) * width * 4) by (nonlinear_arith);
            y = y + 1;
        }
        assert(height * width * 4 == width * height * 4) by (nonlinear_arith);
        assert(buffer@ =~= Seq::new((width * height * 4) as nat, |i: int| 0u8));
        PixelBuffer { buffer: Some(buffer), row_length: width }
    }

    /// Stores `buffer` as the frame's bytes.
    pub fn replace_raw(&mut self, buffer: Vec<u8>)
        ensures
            final(self).data() == Some(buffer@),
            final(self).row_len() == old(self).row_len(),
    {
        self.buffer = Some(buffer);
    }

    /// Hands out the bytes held, leaving the storage empty.
    pub fn take_raw(&mut self) -> (taken: Option<Vec<u8>>)
        ensures
            match taken {
                Some(v) => old(self).data() == Some(v@),
                None => old(self).data() is None,
            },
            final(self).data() is None,
            final(self).row_len() == old(self).row_len(),
    {
        self.buffer.take()
    }

    /// Stores `buffer` as the frame, in its byte layout.
    pub fn replace(&mut self, buffer: Vec<Pixel>)
        requires
            4 * buffer@.len() <= usize::MAX,
        ensures
            final(self).data() == Some(flatten(buffer@)),
            final(self).row_len() == old(self).row_len(),
    {
        self.buffer = Some(PixelBuffer::fast_flatten(buffer));
    }

    /// Hands out the frame as pixel records, leaving the storage empty.
    pub fn take(&mut self) -> (pixels: Vec<Pixel>)
        requires
            old(self).is_held(),
            old(self).bytes().len() % 4 == 0,
        ensures
            pixels@ == nest(old(self).bytes()),
            final(self).data() is None,
            final(self).row_len() == old(self).row_len(),
    {
        let taken = self.buffer.take();
        PixelBuffer::fast_nested(taken.unwrap())
    }

    /// The bytes held.
    pub fn get_raw(&self) -> (raw: &Vec<u8>)
        requires
            self.is_held(),
        ensures
            raw@ == self.bytes(),
    {
        self.buffer.as_ref().unwrap()
    }

    /// The bytes held, for writing in place.
    pub fn get_mut_raw(&mut self) -> (raw: &mut Vec<u8>)
        requires
            old(self).is_held(),
        ensures
            raw@ == old(self).bytes(),
            final(self).data() == Some(final(raw)@),
            final(self).row_len() == old(self).row_len(),
    {
        self.buffer.as_mut().unwrap()
    }

    /// Writes `pix` over the four bytes of column `x` in row `y`.
    pub fn write_pixel(&mut self, x: usize, y: usize, pix: Pixel)
        requires
            old(self).is_held(),
            4 * (y * old(self).row_len() + x) + 4 <= old(self).bytes().len(),
        ensures
            final(self).data() == Some(
                with_pixel(old(self).bytes(), 4 * (y * old(self).row_len() + x), pix),
            ),
            final(self).row_len() == old(self).row_len(),
    {
        let row_length = self.row_length;
        let (r, g, b, a) = pix.to_tuple();
        let buffer = self.buffer.as_mut().unwrap();
        // the vector's length, and with it the index, fits in a usize
        assert(buffer@.len() == buffer.len());
        let idx = (y * row_length + x) * 4;
        buffer[idx] = r;
        buffer[idx + 1] = g;
        buffer[idx + 2] = b;
        buffer[idx + 3] = a;
    }

    /// Writes `pix` over the four bytes of the pixel with row-major index
    /// `pix_idx`.
    pub fn write_pixel_at(&mut self, pix_idx: usize, pix: Pixel)
        requires
            old(self).is_held(),
            old(self).row_len() > 0,
            4 * pix_idx + 4 <= old(self).bytes().len(),
        ensures
            final(self).data() == Some(with_pixel(old(self).bytes(), 4 * pix_idx, pix)),
            final(self).row_len() == old(self).row_len(),
    {
        let (r, g, b, a) = pix.to_tuple();
        let y = pix_idx / self.row_length;
        let x = pix_idx % self.row_length;
        let rl = self.row_length;
        assert(y * rl + x == pix_idx) by (nonlinear_arith)
            requires
                rl > 0,
                y == pix_idx / rl,
                x == pix_idx % rl,
        {
            assert(pix_idx == rl * (pix_idx / rl) + pix_idx % rl) by (nonlinear_arith)
                requires
                    rl > 0,
            ;
        }
        let buffer = self.buffer.as_mut().unwrap();
        // the vector's length, and with it the index, fits in a usize
        assert(buffer@.len() == buffer.len());
        let idx = (y * rl + x) * 4;
        buffer[idx] = r;
        buffer[idx + 1] = g;
        buffer[idx + 2] = b;
        buffer[idx + 3] = a;
    }

    /// The byte layout of `from`: four bytes per pixel, in order.
    pub fn fast_flatten(from: Vec<Pixel>) -> (bytes: Vec<u8>)
        requires
            4 * from@.len() <= usize::MAX,
        ensures
            bytes@ == flatten(from@),
    {
        let mut bytes: Vec<u8> = Vec::with_capacity(from.len() * 4);
        let mut k: usize = 0;
        while k < from.len()
            invariant
                k <= from@.len(),
                bytes@.len() == 4 * k,
                forall|i: int| 0 <= i < 4 * k ==> #[trigger] bytes@[i] == channel(from@[i / 4], i % 4),
            decreases from@.len() - k,
        {
            let (r, g, b, a) = from[k].to_tuple();
            bytes.push(r);
            bytes.push(g);
            bytes.push(b);
            bytes.push(a);
            assert forall|i: int| 0 <= i < 4 * k + 4 implies #[trigger] bytes@[i] == channel(
                from@[i / 4],
                i % 4,
            ) by {
                if i >= 4 * k {
                    assert(i / 4 == k && i % 4 == i - 4 * k);
                }
            }
            k = k + 1;
        }
        assert(bytes@ =~= flatten(from@));
        bytes
    }

    /// The pixel records of a byte layout whose length is a whole number of
    /// pixels.
    pub fn fast_nested(from: Vec<u8>) -> (pixels: Vec<Pixel>)
        requires
            from@.len() % 4 == 0,
        ensures
            pixels@ == nest(from@),
    {
        let n = from.len() / 4;
        let mut pixels: Vec<Pixel> = Vec::with_capacity(n);
        let mut k: usize = 0;
        while k < n
            invariant
                n == from@.len() / 4,
                from@.len() % 4 == 0,
                from@.len() <= usize::MAX,
                k <= n,
                pixels@ =~= nest(from@).subrange(0, k as int),
            decreases n - k,
        {
            assert(4 * k + 4 <= from@.len());
            let p = Pixel { r: from[4 * k], g: from[4 * k + 1], b: from[4 * k + 2], a: from[4 * k + 3] };
            pixels.push(p);
            k = k + 1;
        }
        pixels
    }
}

} // verus!
