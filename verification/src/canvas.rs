//! The raster: a fixed-size grid of RGB pixels stored as interleaved
//! 8-bit samples, row by row from the top left.

use crate::pixel::{Pixel, Rgb};
use std::io::Cursor;
use vstd::prelude::*;

verus! {

/// The mathematical content of a canvas: its dimensions and its samples in
/// row-major order, three per pixel (red, green, blue).
pub struct CanvasView {
    pub width: nat,
    pub height: nat,
    pub samples: Seq<u8>,
}

impl CanvasView {
    /// There are exactly three samples for each pixel.
    pub open spec fn wf(self) -> bool {
        self.samples.len() == 3 * (self.width * self.height)
    }

    /// `(x, y)` names a pixel of the canvas.
    pub open spec fn contains(self, x: int, y: int) -> bool {
        0 <= x < self.width && 0 <= y < self.height
    }

    /// Index of the red sample of the pixel at `(x, y)`.
    pub open spec fn offset(self, x: int, y: int) -> int {
        3 * (y * self.width + x)
    }

    /// The colour of the pixel at `(x, y)`.
    pub open spec fn pixel(self, x: int, y: int) -> Rgb {
        let at = self.offset(x, y);
        Rgb { r: self.samples[at], g: self.samples[at + 1], b: self.samples[at + 2] }
    }

    /// The canvas with the pixel at `(x, y)` painted `color`.
    pub open spec fn put(self, x: int, y: int, color: Rgb) -> CanvasView {
        let at = self.offset(x, y);
        CanvasView {
            width: self.width,
            height: self.height,
            samples: self.samples.update(at, color.r).update(at + 1, color.g).update(
                at + 2,
                color.b,
            ),
        }
    }

    /// The canvas after one write request.
    pub open spec fn apply(self, write: Pixel) -> CanvasView {
        self.put(write.x as int, write.y as int, write.color())
    }

    /// The canvas after the requests in `writes`, applied first to last.
    pub open spec fn apply_all(self, writes: Seq<Pixel>) -> CanvasView
        decreases writes.len(),
    {
        if writes.len() == 0 {
            self
        } else {
            self.apply_all(writes.drop_last()).apply(writes.last())
        }
    }

    /// Every request in `writes` targets a pixel of the canvas.
    pub open spec fn admits(self, writes: Seq<Pixel>) -> bool {
        forall|i: int| 0 <= i < writes.len() ==> (#[trigger] writes[i]).within(self.width, self.height)
    }

    /// The PNG file that encodes this canvas, or `None` where the encoder
    /// refuses it.
    pub open spec fn png(self) -> Option<Seq<u8>> {
        png_encoding(self.width as u32, self.height as u32, self.samples)
    }

    /// No two requests in `writes` target the same pixel.
    pub open spec fn distinct_places(writes: Seq<Pixel>) -> bool {
        forall|i: int, j: int|
            0 <= i < j < writes.len() ==> !(#[trigger] writes[i]).same_place(#[trigger] writes[j])
    }

    /// The three samples of a pixel of the canvas lie inside the sample
    /// sequence.
    pub proof fn lemma_offset_in_range(self, x: int, y: int)
        requires
            self.wf(),
            self.contains(x, y),
        ensures
            0 <= self.offset(x, y),
            self.offset(x, y) + 3 <= self.samples.len(),
    {
        let w = self.width as int;
        let h = self.height as int;
        assert(0 <= y * w && y * w + w <= h * w) by (nonlinear_arith)
            requires
                0 <= y < h,
                0 <= w,
        ;
        assert(h * w == w * h) by (nonlinear_arith);
    }

    /// Distinct pixels occupy disjoint triples of samples.
    pub proof fn lemma_offsets_apart(self, x1: int, y1: int, x2: int, y2: int)
        requires
            self.contains(x1, y1),
            self.contains(x2, y2),
            x1 != x2 || y1 != y2,
        ensures
            self.offset(x1, y1) + 3 <= self.offset(x2, y2) || self.offset(x2, y2) + 3
                <= self.offset(x1, y1),
    {
        let w = self.width as int;
        if y1 < y2 {
            assert(y1 * w + w <= y2 * w) by (nonlinear_arith)
                requires
                    y1 < y2,
                    0 <= w,
            ;
        } else if y2 < y1 {
            assert(y2 * w + w <= y1 * w) by (nonlinear_arith)
                requires
                    y2 < y1,
                    0 <= w,
            ;
        }
    }

    /// Painting a pixel changes that pixel and no other, and keeps the
    /// canvas well formed.
    pub proof fn lemma_put(self, x: int, y: int, color: Rgb)
        requires
            self.wf(),
            self.contains(x, y),
        ensures
            self.put(x, y, color).wf(),
            self.put(x, y, color).width == self.width,
            self.put(x, y, color).height == self.height,
            self.put(x, y, color).pixel(x, y) == color,
            forall|x2: int, y2: int|
                self.contains(x2, y2) && (x2 != x || y2 != y) ==> #[trigger] self.put(
                    x,
                    y,
                    color,
                ).pixel(x2, y2) == self.pixel(x2, y2),
    {
        self.lemma_offset_in_range(x, y);
        assert forall|x2: int, y2: int|
            self.contains(x2, y2) && (x2 != x || y2 != y) implies #[trigger] self.put(
            x,
            y,
            color,
        ).pixel(x2, y2) == self.pixel(x2, y2) by {
            self.lemma_offset_in_range(x2, y2);
            self.lemma_offsets_apart(x, y, x2, y2);
        }
    }

    /// Applying requests keeps the dimensions and the well-formedness.
    pub proof fn lemma_apply_all_shape(self, writes: Seq<Pixel>)
        requires
            self.wf(),
            self.admits(writes),
        ensures
            self.apply_all(writes).wf(),
            self.apply_all(writes).width == self.width,
            self.apply_all(writes).height == self.height,
        decreases writes.len(),
    {
        if writes.len() > 0 {
            let last = writes.last();
            self.lemma_apply_all_shape(writes.drop_last());
            self.apply_all(writes.drop_last()).lemma_put(last.x as int, last.y as int, last.color());
        }
    }

    /// Applying one batch and then another is applying their concatenation.
    pub proof fn lemma_apply_all_concat(self, first: Seq<Pixel>, second: Seq<Pixel>)
        ensures
            self.apply_all(first + second) == self.apply_all(first).apply_all(second),
        decreases second.len(),
    {
        if second.len() == 0 {
            assert(first + second == first);
        } else {
            assert((first + second).drop_last() == first + second.drop_last());
            self.lemma_apply_all_concat(first, second.drop_last());
        }
    }

    /// Last write wins: after a batch, a pixel shows the colour of the last
    /// request in the batch that targets it.
    pub proof fn lemma_last_write_wins(self, writes: Seq<Pixel>, i: int)
        requires
            self.wf(),
            self.admits(writes),
            0 <= i < writes.len(),
            forall|j: int| i < j < writes.len() ==> !(#[trigger] writes[j]).same_place(writes[i]),
        ensures
            self.apply_all(writes).pixel(writes[i].x as int, writes[i].y as int)
                == writes[i].color(),
        decreases writes.len(),
    {
        let last = writes.last();
        let before = self.apply_all(writes.drop_last());
        self.lemma_apply_all_shape(writes.drop_last());
        before.lemma_put(last.x as int, last.y as int, last.color());
        if i < writes.len() - 1 {
            assert(!writes[writes.len() - 1].same_place(writes[i]));
            self.lemma_last_write_wins(writes.drop_last(), i);
        }
    }

    /// A pixel that no request in the batch targets keeps its colour.
    pub proof fn lemma_untouched_pixel(self, writes: Seq<Pixel>, x: int, y: int)
        requires
            self.wf(),
            self.admits(writes),
            self.contains(x, y),
            forall|j: int|
                0 <= j < writes.len() ==> !((#[trigger] writes[j]).x == x && writes[j].y == y),
        ensures
            self.apply_all(writes).pixel(x, y) == self.pixel(x, y),
        decreases writes.len(),
    {
        if writes.len() > 0 {
            let last = writes.last();
            let before = self.apply_all(writes.drop_last());
            self.lemma_apply_all_shape(writes.drop_last());
            before.lemma_put(last.x as int, last.y as int, last.color());
            assert(!(writes[writes.len() - 1].x == x && writes[writes.len() - 1].y == y));
            self.lemma_untouched_pixel(writes.drop_last(), x, y);
        }
    }

    /// Writes to distinct pixels all land: whatever order they were queued
    /// in, each targeted pixel shows exactly the colour of its one request,
    /// and every other pixel is unchanged.
    pub proof fn lemma_distinct_writes_all_land(self, writes: Seq<Pixel>)
        requires
            self.wf(),
            self.admits(writes),
            Self::distinct_places(writes),
        ensures
            forall|i: int|
                0 <= i < writes.len() ==> self.apply_all(writes).pixel(
                    (#[trigger] writes[i]).x as int,
                    writes[i].y as int,
                ) == writes[i].color(),
            forall|x: int, y: int|
                self.contains(x, y) && (forall|j: int|
                    0 <= j < writes.len() ==> !((#[trigger] writes[j]).x == x && writes[j].y == y))
                    ==> #[trigger] self.apply_all(writes).pixel(x, y) == self.pixel(x, y),
    {
        assert forall|i: int| 0 <= i < writes.len() implies self.apply_all(writes).pixel(
            (#[trigger] writes[i]).x as int,
            writes[i].y as int,
        ) == writes[i].color() by {
            self.lemma_last_write_wins(writes, i);
        }
        assert forall|x: int, y: int|
            self.contains(x, y) && (forall|j: int|
                0 <= j < writes.len() ==> !((#[trigger] writes[j]).x == x && writes[j].y
                    == y)) implies #[trigger] self.apply_all(writes).pixel(x, y) == self.pixel(
            x,
            y,
        ) by {
            self.lemma_untouched_pixel(writes, x, y);
        }
    }
}

/// The PNG file that the `image` crate produces for a `width` by `height`
/// image of 8-bit RGB `samples`, or `None` where it refuses to encode one.
pub uninterp spec fn png_encoding(width: u32, height: u32, samples: Seq<u8>) -> Option<Seq<u8>>;

/// The error type of the `image` crate, carried through unread.
#[verifier::external_type_specification]
#[verifier::external_body]
pub struct ExImageError(image::ImageError);

/// Calls `image::write_buffer_with_format` with the PNG format and the
/// `Rgb8` colour type on an in-memory cursor: the function that
/// `ImageBuffer::write_to` forwards to.
///
/// Trusted: the bytes written, or the refusal, depend on the dimensions and
/// the samples alone, so both are given by `png_encoding`. The encoder
/// panics on a buffer of any other length than three samples per pixel,
/// which the precondition rules out.
#[verifier::external_body]
fn write_png(width: u32, height: u32, samples: &Vec<u8>) -> (encoded: Result<
    Vec<u8>,
    image::ImageError,
>)
    requires
        samples@.len() == 3 * (width * height),
    ensures
        match encoded {
            Ok(bytes) => png_encoding(width, height, samples@) == Some(bytes@),
            Err(_) => png_encoding(width, height, samples@) is None,
        },
{
    let mut buffer = Cursor::new(Vec::new());
    image::write_buffer_with_format(
        &mut buffer,
        samples,
        width,
        height,
        image::ExtendedColorType::Rgb8,
        image::ImageFormat::Png,
    )?;
    Ok(buffer.into_inner())
}

/// The canvas could not be encoded as a PNG file.
#[derive(Clone, Copy, Debug, PartialEq, Eq, Structural)]
pub struct EncodeError {}

/// A `width` by `height` raster of RGB pixels.
pub struct Canvas {
    width: u32,
    height: u32,
    samples: Vec<u8>,
}

impl View for Canvas {
    type V = CanvasView;

    closed spec fn view(&self) -> CanvasView {
        CanvasView {
            width: self.width as nat,
            height: self.height as nat,
            samples: self.samples@,
        }
    }
}

impl Canvas {
    /// The buffer holds exactly the samples of a `width` by `height` image.
    pub open spec fn wf(&self) -> bool {
        self@.wf()
    }

    /// Builds a canvas from interleaved RGB samples in row-major order.
    /// Succeeds exactly when `samples` holds three samples per pixel.
    pub fn from_raw(width: u32, height: u32, samples: Vec<u8>) -> (canvas: Option<Canvas>)
        ensures
            canvas is Some <==> samples@.len() == 3 * (width * height),
            canvas matches Some(c) ==> c.wf() && c@ == (CanvasView {
                width: width as nat,
                height: height as nat,
                samples: samples@,
            }),
    {
        assert(0 <= width * height <= 0xffff_ffff * 0xffff_ffff) by (nonlinear_arith)
            requires
                0 <= width <= 0xffff_ffff,
                0 <= height <= 0xffff_ffff,
        ;
        let pixels: u64 = width as u64 * height as u64;
        let needed: u128 = 3 * (pixels as u128);
        if samples.len() as u128 == needed {
            Some(Canvas { width, height, samples })
        } else {
            None
        }
    }

    /// Width and height, fixed when the canvas was built.
    pub fn dimensions(&self) -> (size: (u32, u32))
        ensures
            size.0 == self@.width,
            size.1 == self@.height,
    {
        (self.width, self.height)
    }

    /// The interleaved samples, row by row.
    pub fn as_raw(&self) -> (samples: &Vec<u8>)
        ensures
            samples@ == self@.samples,
    {
        &self.samples
    }

    /// Gives up the canvas for its interleaved samples.
    pub fn into_raw(self) -> (samples: Vec<u8>)
        ensures
            samples@ == self@.samples,
    {
        self.samples
    }

    fn sample_index(&self, x: u32, y: u32) -> (at: usize)
        requires
            self.wf(),
            self@.contains(x as int, y as int),
        ensures
            at == self@.offset(x as int, y as int),
            at + 3 <= self.samples@.len(),
            at + 3 <= usize::MAX,
    {
        proof {
            self@.lemma_offset_in_range(x as int, y as int);
            let w = self.width as int;
            assert(0 <= y * w) by (nonlinear_arith)
                requires
                    0 <= y,
                    0 <= w,
            ;
            assert(self.samples@.len() == self.samples.len());
        }
        3 * (y as usize * self.width as usize + x as usize)
    }

    /// The colour of the pixel at `(x, y)`.
    pub fn get_pixel(&self, x: u32, y: u32) -> (color: Rgb)
        requires
            self.wf(),
            self@.contains(x as int, y as int),
        ensures
            color == self@.pixel(x as int, y as int),
    {
        let at = self.sample_index(x, y);
        Rgb { r: self.samples[at], g: self.samples[at + 1], b: self.samples[at + 2] }
    }

    /// Paints the pixel at `(x, y)`; every other pixel keeps its colour.
    pub fn put_pixel(&mut self, x: u32, y: u32, color: Rgb)
        requires
            old(self).wf(),
            old(self)@.contains(x as int, y as int),
        ensures
            final(self).wf(),
            final(self)@ == old(self)@.put(x as int, y as int, color),
    {
        let at = self.sample_index(x, y);
        self.samples.set(at, color.r);
        self.samples.set(at + 1, color.g);
        self.samples.set(at + 2, color.b);
    }

    /// Applies one write request.
    pub fn apply(&mut self, write: &Pixel)
        requires
            old(self).wf(),
            write.within(old(self)@.width, old(self)@.height),
        ensures
            final(self).wf(),
            final(self)@ == old(self)@.apply(*write),
    {
        self.put_pixel(write.x, write.y, write.rgb());
    }

    /// Applies a batch of write requests in order, first to last, so that a
    /// later request to the same pixel overwrites an earlier one.
    pub fn apply_batch(&mut self, batch: &Vec<Pixel>)
        requires
            old(self).wf(),
            old(self)@.admits(batch@),
        ensures
            final(self).wf(),
            final(self)@ == old(self)@.apply_all(batch@),
    {
        let ghost start = self@;
        let mut done: usize = 0;
        while done < batch.len()
            invariant
                done <= batch.len(),
                self.wf(),
                start.admits(batch@),
                self@.width == start.width,
                self@.height == start.height,
                self@ == start.apply_all(batch@.take(done as int)),
            decreases batch.len() - done,
        {
            let write = &batch[done];
            proof {
                self@.lemma_put(write.x as int, write.y as int, write.color());
                assert(batch@.take(done + 1).drop_last() == batch@.take(done as int));
            }
            self.apply(write);
            done += 1;
        }
        proof {
            assert(batch@.take(done as int) == batch@);
        }
    }

    /// Encodes the whole canvas as a PNG file.
    ///
    /// The result depends on this one canvas value alone: the bytes are the
    /// encoding of exactly the pixels the canvas holds when it is called.
    pub fn encode_png(&self) -> (encoded: Result<Vec<u8>, EncodeError>)
        requires
            self.wf(),
        ensures
            match encoded {
                Ok(bytes) => self@.png() == Some(bytes@),
                Err(_) => self@.png() is None,
            },
    {
        match write_png(self.width, self.height, &self.samples) {
            Ok(bytes) => Ok(bytes),
            Err(_) => Err(EncodeError {  }),
        }
    }
}

} // verus!
