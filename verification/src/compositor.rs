//! Frame composition: clearing a destination pixel buffer and blitting a
//! source image into it at a fixed offset by direct row copies.
//!
//! Buffers are interleaved 4-channel (red, green, blue, alpha), 8 bits per
//! channel, row-major, stride = width * 4 bytes. Source and destination share
//! this layout, so a blit is a plain byte copy per row; the layout is a
//! precondition of every contract here, not a coincidence.

use vstd::prelude::*;
use vstd::arithmetic::div_mod::{lemma_fundamental_div_mod, lemma_fundamental_div_mod_converse};
use crate::image::ImageAsset;

verus! {

/// Whether destination byte index `i` lies inside the footprint of an image
/// of `w` x `h` pixels placed at pixel offset (`x`, `y`) in a destination of
/// `dw` pixels per row.
pub open spec fn in_footprint(i: int, dw: int, x: int, y: int, w: int, h: int) -> bool {
    let row: int = i / (dw * 4);
    let col: int = i % (dw * 4);
    &&& y <= row < y + h
    &&& 4 * x <= col < 4 * (x + w)
}

/// The source byte index that destination byte index `i` is copied from,
/// when `i` lies in the footprint.
pub open spec fn source_index(i: int, dw: int, x: int, y: int, w: int) -> int {
    let row: int = i / (dw * 4);
    let col: int = i % (dw * 4);
    (row - y) * (4 * w) + (col - 4 * x)
}

/// The byte a freshly composited destination holds at index `i`: the source
/// byte inside the placed image's footprint, transparent black outside it.
pub open spec fn composited_byte(i: int, dw: int, x: int, y: int, img: Seq<u8>, w: int, h: int) -> u8 {
    if in_footprint(i, dw, x, y, w, h) {
        img[source_index(i, dw, x, y, w)]
    } else {
        0u8
    }
}

/// Pixel offset of the source image inside the destination frame.
#[derive(Clone, Copy, PartialEq, Eq, Structural, Debug)]
pub struct Placement {
    pub x: usize,
    pub y: usize,
}

impl Placement {
    /// The placed `w` x `h` image lies inside a `dw` x `dh` destination.
    pub open spec fn fits(self, dw: int, dh: int, w: int, h: int) -> bool {
        &&& self.x + w <= dw
        &&& self.y + h <= dh
    }

    /// The integer-truncated centering offset of a `width` x `height` image
    /// in a `dest_width` x `dest_height` destination.
    pub fn centered(dest_width: usize, dest_height: usize, width: usize, height: usize) -> (p: Placement)
        requires
            width <= dest_width,
            height <= dest_height,
        ensures
            p.x == (dest_width - width) / 2,
            p.y == (dest_height - height) / 2,
            p.fits(dest_width as int, dest_height as int, width as int, height as int),
    {
        Placement { x: (dest_width - width) / 2, y: (dest_height - height) / 2 }
    }
}

/// Set every byte of the buffer to zero (transparent black).
pub fn clear(buffer: &mut Vec<u8>)
    ensures
        final(buffer)@.len() == old(buffer)@.len(),
        forall|i: int| 0 <= i < final(buffer)@.len() ==> final(buffer)@[i] == 0u8,
{
    let n: usize = buffer.len();
    let mut k: usize = 0;
    while k < n
        invariant
            n == buffer@.len(),
            k <= n,
            forall|i: int| 0 <= i < k ==> buffer@[i] == 0u8,
        decreases n - k,
    {
        buffer[k] = 0u8;
        k = k + 1;
    }
}

/// Copy `n` bytes from `img` starting at `si` into `buffer` starting at `di`;
/// every byte outside the written range keeps its old value.
fn copy_row(buffer: &mut Vec<u8>, di: usize, img: &Vec<u8>, si: usize, n: usize)
    requires
        di + n <= old(buffer)@.len(),
        si + n <= img@.len(),
    ensures
        final(buffer)@.len() == old(buffer)@.len(),
        forall|i: int| di <= i < di + n ==> final(buffer)@[i] == img@[si + (i - di)],
        forall|i: int|
            0 <= i < old(buffer)@.len() && !(di <= i < di + n) ==> final(buffer)@[i] == old(
                buffer,
            )@[i],
{
    let buf_len: usize = buffer.len();
    let img_len: usize = img.len();
    let mut j: usize = 0;
    while j < n
        invariant
            j <= n,
            buf_len == buffer@.len(),
            img_len == img@.len(),
            di + n <= buf_len,
            si + n <= img_len,
            buffer@.len() == old(buffer)@.len(),
            forall|i: int| di <= i < di + j ==> buffer@[i] == img@[si + (i - di)],
            forall|i: int|
                0 <= i < buffer@.len() && !(di <= i < di + j) ==> buffer@[i] == old(buffer)@[i],
        decreases n - j,
    {
        buffer[di + j] = img[si + j];
        j = j + 1;
    }
}

/// `(r * dw + x) * 4 + k` is the flat form of column byte `4 * x + k` of
/// destination row `r`.
proof fn lemma_flat_index(r: int, dw: int, x: int, k: int)
    by (nonlinear_arith)
    ensures
        (r * dw + x) * 4 + k == r * (dw * 4) + (4 * x + k),
        r * (dw * 4) == (dw * 4) * r,
{
}

/// Bounds of destination row `sy + y` of the blit: the row's byte range lies
/// inside a destination of `dw` pixels per row whose rows reach to `y + h`.
proof fn lemma_row_in_bounds(sy: int, y: int, h: int, dw: int, x: int, w: int)
    by (nonlinear_arith)
    requires
        0 <= sy < h,
        0 <= y,
        0 <= x,
        0 <= w,
        1 <= dw,
        x + w <= dw,
    ensures
        ((sy + y) * dw + x) * 4 + w * 4 <= (y + h) * (dw * 4),
        0 <= sy + y <= (sy + y) * dw + x <= ((sy + y) * dw + x) * 4,
{
}

/// Row `sy` of the source image lies inside a source buffer of
/// `w * h * 4` bytes.
proof fn lemma_source_row_in_bounds(sy: int, w: int, h: int)
    by (nonlinear_arith)
    requires
        0 <= sy < h,
        0 <= w,
    ensures
        sy * (w * 4) + w * 4 <= w * h * 4,
        0 <= sy * (w * 4),
{
}

/// Copy the `width` x `height` image `img` into `buffer` at pixel offset
/// (`x`, `y`), one row at a time; bytes outside the image's footprint keep
/// their old values.
pub fn blit(
    buffer: &mut Vec<u8>,
    dest_width: usize,
    x: usize,
    y: usize,
    img: &Vec<u8>,
    width: usize,
    height: usize,
)
    requires
        img@.len() == width * height * 4,
        x + width <= dest_width,
        (y + height) * (dest_width * 4) <= old(buffer)@.len(),
    ensures
        final(buffer)@.len() == old(buffer)@.len(),
        forall|i: int|
            0 <= i < old(buffer)@.len() && in_footprint(
                i,
                dest_width as int,
                x as int,
                y as int,
                width as int,
                height as int,
            ) ==> final(buffer)@[i] == img@[source_index(
                i,
                dest_width as int,
                x as int,
                y as int,
                width as int,
            )],
        forall|i: int|
            0 <= i < old(buffer)@.len() && !in_footprint(
                i,
                dest_width as int,
                x as int,
                y as int,
                width as int,
                height as int,
            ) ==> final(buffer)@[i] == old(buffer)@[i],
{
    let ghost orig: Seq<u8> = buffer@;
    let ghost dw: int = dest_width as int;
    if height == 0 || width == 0 {
        return;
    }
    let buf_len: usize = buffer.len();
    let img_len: usize = img.len();
    assert(width * 4 <= width * height * 4) by (nonlinear_arith)
        requires
            1 <= height,
            0 <= width,
    ;
    let stride: usize = width * 4;
    let mut sy: usize = 0;
    while sy < height
        invariant
            sy <= height,
            stride == width * 4,
            1 <= height,
            1 <= width,
            img_len == img@.len(),
            img@.len() == width * height * 4,
            x + width <= dest_width,
            (y + height) * (dest_width * 4) <= buf_len,
            dw == dest_width as int,
            buf_len == buffer@.len(),
            buffer@.len() == orig.len(),
            forall|i: int|
                0 <= i < orig.len() && in_footprint(i, dw, x as int, y as int, width as int, sy as int)
                    ==> buffer@[i] == img@[source_index(i, dw, x as int, y as int, width as int)],
            forall|i: int|
                0 <= i < orig.len() && !in_footprint(i, dw, x as int, y as int, width as int, sy as int)
                    ==> buffer@[i] == orig[i],
        decreases height - sy,
    {
        proof {
            lemma_row_in_bounds(sy as int, y as int, height as int, dw, x as int, width as int);
            lemma_source_row_in_bounds(sy as int, width as int, height as int);
        }
        let di: usize = ((sy + y) * dest_width + x) * 4;
        let si: usize = sy * stride;
        let ghost before: Seq<u8> = buffer@;
        copy_row(buffer, di, img, si, stride);
        proof {
            let xi: int = x as int;
            let yi: int = y as int;
            let wi: int = width as int;
            let syi: int = sy as int;
            let d: int = dw * 4;
            assert forall|i: int|
                0 <= i < orig.len() && in_footprint(i, dw, xi, yi, wi, syi + 1) implies buffer@[i]
                == img@[source_index(i, dw, xi, yi, wi)] by {
                let row: int = i / d;
                let col: int = i % d;
                lemma_fundamental_div_mod(i, d);
                if row < yi + syi {
                    // an already-finished row: this copy did not touch it
                    assert(in_footprint(i, dw, xi, yi, wi, syi));
                    if di <= i < di + stride {
                        lemma_flat_index(syi + yi, dw, xi, i - di);
                        lemma_fundamental_div_mod_converse(i, d, syi + yi, 4 * xi + (i - di));
                        assert(false);
                    }
                    assert(buffer@[i] == before[i]);
                } else {
                    // row == sy + y: the row this iteration wrote
                    assert(row == yi + syi);
                    lemma_flat_index(syi + yi, dw, xi, col - 4 * xi);
                    assert(i == di + (col - 4 * xi));
                    assert(buffer@[i] == img@[si + (i - di)]);
                    assert(source_index(i, dw, xi, yi, wi) == syi * (4 * wi) + (col - 4 * xi));
                    assert(si + (i - di) == syi * (wi * 4) + (col - 4 * xi));
                }
            };
            assert forall|i: int|
                0 <= i < orig.len() && !in_footprint(i, dw, xi, yi, wi, syi + 1) implies buffer@[i]
                == orig[i] by {
                let row: int = i / d;
                let col: int = i % d;
                lemma_fundamental_div_mod(i, d);
                assert(!in_footprint(i, dw, xi, yi, wi, syi));
                if di <= i < di + stride {
                    lemma_flat_index(syi + yi, dw, xi, i - di);
                    lemma_fundamental_div_mod_converse(i, d, syi + yi, 4 * xi + (i - di));
                    assert(in_footprint(i, dw, xi, yi, wi, syi + 1));
                }
                assert(buffer@[i] == before[i]);
            };
        }
        sy = sy + 1;
    }
}

/// Length precondition of a blit into a `dw` x `dh` destination buffer.
proof fn lemma_blit_fits_len(y: int, h: int, dw: int, dh: int)
    by (nonlinear_arith)
    requires
        0 <= y,
        0 <= h,
        0 <= dw,
        y + h <= dh,
    ensures
        (y + h) * (dw * 4) <= dw * dh * 4,
{
}

/// Fill the destination frame: clear it to transparent black, then blit the
/// source image at the given placement. Every destination byte afterwards is
/// pinned by `composited_byte`: the source byte inside the footprint, zero
/// outside it. The buffer's length never changes, so a composited
/// `dest_width` x `dest_height` destination holds exactly
/// `dest_width * dest_height * 4` bytes.
pub fn composite(
    dest: &mut Vec<u8>,
    dest_width: usize,
    dest_height: usize,
    placement: &Placement,
    source: &ImageAsset,
)
    requires
        source.wf(),
        old(dest)@.len() == dest_width * dest_height * 4,
        placement.fits(
            dest_width as int,
            dest_height as int,
            source.width as int,
            source.height as int,
        ),
    ensures
        final(dest)@.len() == dest_width * dest_height * 4,
        forall|i: int|
            0 <= i < final(dest)@.len() ==> final(dest)@[i] == composited_byte(
                i,
                dest_width as int,
                placement.x as int,
                placement.y as int,
                source.pixels@,
                source.width as int,
                source.height as int,
            ),
{
    proof {
        lemma_blit_fits_len(
            placement.y as int,
            source.height as int,
            dest_width as int,
            dest_height as int,
        );
    }
    clear(dest);
    blit(dest, dest_width, placement.x, placement.y, &source.pixels, source.width, source.height);
}

/// Clear-then-draw leaves no stale state: a composited destination is a
/// function of the placement, the source image and the length alone, so two
/// compositing passes over the same inputs agree byte for byte whatever the
/// destinations held before, and every byte outside the placed image's
/// footprint is zero.
pub proof fn lemma_composite_deterministic(
    d1: Seq<u8>,
    d2: Seq<u8>,
    dw: int,
    x: int,
    y: int,
    img: Seq<u8>,
    w: int,
    h: int,
)
    requires
        d1.len() == d2.len(),
        forall|i: int| 0 <= i < d1.len() ==> d1[i] == composited_byte(i, dw, x, y, img, w, h),
        forall|i: int| 0 <= i < d2.len() ==> d2[i] == composited_byte(i, dw, x, y, img, w, h),
    ensures
        d1 == d2,
        forall|i: int| 0 <= i < d1.len() && !in_footprint(i, dw, x, y, w, h) ==> d1[i] == 0u8,
{
    assert(d1 =~= d2);
}

} // verus!
