//! Geometry of the two shrinking policies.

use vstd::prelude::*;
use crate::raster::Raster;
use crate::raster::RasterView;
use crate::raster::Frame;
use crate::raster::FrameView;
use crate::raster::frame_views;
use crate::raster::all_wf;

verus! {

/// `numer / denom` rounded to the nearest integer, a half rounded up.
pub open spec fn round_div(numer: int, denom: int) -> int {
    (2 * numer + denom) / (2 * denom)
}

/// The size that covers a square of side `size` without enlarging: both
/// sides must exceed `size`; the shorter side becomes `size`, the longer one
/// keeps the aspect ratio.
pub open spec fn cover_size(width: u32, height: u32, size: u32) -> (int, int) {
    if width > size && height > size {
        if width > height {
            (round_div(size as int * width as int, height as int), size as int)
        } else {
            (size as int, round_div(size as int * height as int, width as int))
        }
    } else {
        (width as int, height as int)
    }
}

/// Whether a raster of this size already lies within the box.
pub open spec fn fits_within(width: u32, height: u32, box_width: u32, box_height: u32) -> bool {
    width <= box_width && height <= box_height
}

/// `round_div(size * longer, shorter)` lies between `size` and `longer`
/// whenever `size < shorter <= longer`.
pub proof fn lemma_scaled_side_bounds(size: int, shorter: int, longer: int)
    requires
        0 <= size < shorter <= longer,
    ensures
        size <= round_div(size * longer, shorter) <= longer,
{
    let n = 2 * (size * longer) + shorter;
    let d = 2 * shorter;
    assert(n <= longer * d) by (nonlinear_arith)
        requires
            n == 2 * (size * longer) + shorter,
            d == 2 * shorter,
            0 <= size < shorter <= longer,
    ;
    assert(n >= size * d) by (nonlinear_arith)
        requires
            n == 2 * (size * longer) + shorter,
            d == 2 * shorter,
            0 <= size < shorter <= longer,
    ;
    vstd::arithmetic::div_mod::lemma_div_is_ordered(n, longer * d, d);
    vstd::arithmetic::div_mod::lemma_div_is_ordered(size * d, n, d);
    vstd::arithmetic::div_mod::lemma_div_multiples_vanish(longer, d);
    vstd::arithmetic::div_mod::lemma_div_multiples_vanish(size, d);
}

/// The side that keeps the aspect ratio when `shorter` becomes `size`.
pub fn scaled_side(size: u32, shorter: u32, longer: u32) -> (r: u32)
    requires
        size < shorter <= longer,
    ensures
        r == round_div(size as int * longer as int, shorter as int),
        size <= r <= longer,
{
    proof {
        lemma_scaled_side_bounds(size as int, shorter as int, longer as int);
    }
    assert(0 <= size as int * longer as int <= 0xFFFF_FFFF * 0xFFFF_FFFF) by (nonlinear_arith)
        requires
            0 <= size <= 0xFFFF_FFFF,
            0 <= longer <= 0xFFFF_FFFF,
    ;
    let product: u64 = (size as u64) * (longer as u64);
    let numer: u128 = 2u128 * (product as u128) + (shorter as u128);
    let denom: u128 = 2u128 * (shorter as u128);
    let q: u128 = numer / denom;
    q as u32
}

/// The dimensions that `cover_size` describes.
pub fn cover_dimensions(width: u32, height: u32, size: u32) -> (r: (u32, u32))
    ensures
        (r.0 as int, r.1 as int) == cover_size(width, height, size),
        r.0 <= width,
        r.1 <= height,
        width > size && height > size ==> r.0 >= size && r.1 >= size && (r.0 == size || r.1
            == size),
{
    if width > size && height > size {
        if width > height {
            (scaled_side(size, height, width), size)
        } else {
            (size, scaled_side(size, width, height))
        }
    } else {
        (width, height)
    }
}

/// The longest side of a raster that can be scaled down.
pub const MAX_SAMPLED_SIDE: u32 = 0x80_0000;

/// The most source pixels that one pixel of a cover may stand for on
/// each axis.
pub const MAX_COVER_STEP: u32 = 4000;

/// The most by which a fit may scale down on each axis.
pub const MAX_FIT_STEP: u32 = 2000;

/// The most pixels of a raster that is sampled into one pixel.
pub const MAX_SAMPLED_BLOCK: u64 = 16_000_000;

/// Whether a raster can be sampled down to a given size. The sampler
/// adds up the bytes of one block of source pixels for each target pixel
/// in 32 bits, so a block must stay below 2^32 / 255 pixels. It finds the
/// blocks in single precision, which is exact up to a pixel for sides of
/// at most 2^23; a block is then at most three pixels longer on each axis
/// than the quotient of the sides.
pub open spec fn samples_to(width: u32, height: u32, new_width: u32, new_height: u32) -> bool {
    width == 0 || height == 0 || new_width == 0 || new_height == 0 || (width <= MAX_SAMPLED_SIDE
        && height <= MAX_SAMPLED_SIDE && width / new_width <= MAX_COVER_STEP && height
        / new_height <= MAX_COVER_STEP)
}

/// Whether a raster can be covered: it is left as it is, or it can be
/// sampled down to the size of the cover.
pub open spec fn can_cover(width: u32, height: u32, size: u32) -> bool {
    width > size && height > size ==> samples_to(
        width,
        height,
        cover_size(width, height, size).0 as u32,
        cover_size(width, height, size).1 as u32,
    )
}

/// Whether a raster can be fitted: it is left as it is, or it can be
/// sampled down by the scale that the box asks for. The size chosen for a
/// fit has sides of at least half of what that scale gives, so a block is
/// at most twice the scale a side. For a box with a side of no length the
/// size chosen is one pixel, which stands for the whole raster. A raster
/// without pixels becomes a row or a column as long as the box, which
/// must be short enough to be held.
pub open spec fn can_fit(width: u32, height: u32, box_width: u32, box_height: u32) -> bool {
    !fits_within(width, height, box_width, box_height) ==> if width == 0 || height == 0 {
        box_width < 0x4000_0000 && box_height < 0x4000_0000
    } else {
        width <= MAX_SAMPLED_SIDE && height <= MAX_SAMPLED_SIDE && if box_width == 0 || box_height
            == 0 {
            width * height <= MAX_SAMPLED_BLOCK
        } else {
            width / box_width <= MAX_FIT_STEP && height / box_height <= MAX_FIT_STEP
        }
    }
}

/// Whether `side` is `numer / denom` to the nearest pixel, a half going
/// either way, and one pixel where that would be none.
pub open spec fn nearest_pixel(side: int, numer: int, denom: int) -> bool {
    if 2 * numer < denom {
        side == 1
    } else {
        -denom <= 2 * (side * denom - numer) <= denom
    }
}

/// Whether a new size keeps the ratio of the sides of a raster that did
/// not fit its box: the side on the axis that limits the scale is as long
/// as the box, and the other side is what the same scale makes of it, to
/// the nearest pixel.
pub open spec fn keeps_ratio(
    width: u32,
    height: u32,
    box_width: u32,
    box_height: u32,
    new_width: u32,
    new_height: u32,
) -> bool {
    &&& box_width * height <= box_height * width ==> new_width == box_width && nearest_pixel(
        new_height as int,
        height * box_width,
        width as int,
    )
    &&& box_height * width <= box_width * height ==> new_height == box_height && nearest_pixel(
        new_width as int,
        width * box_height,
        height as int,
    )
}

/// The pixels that `image::DynamicImage::thumbnail_exact` computes from an
/// RGBA raster for the given new size.
pub uninterp spec fn thumbnail_exact_pixels(image: RasterView, new_width: u32, new_height: u32) -> Seq<u8>;

/// The raster that `image::DynamicImage::thumbnail` computes from an RGBA
/// raster for the given box.
pub uninterp spec fn thumbnail_result(image: RasterView, box_width: u32, box_height: u32) -> RasterView;

/// Calls `image::DynamicImage::thumbnail_exact` on the raster. The method
/// allocates a buffer of exactly the new size and fills it; the contract
/// claims that size and names the pixels. Only shrinking is admitted, and
/// only where no block of source pixels is too large for the sampler's
/// 32-bit sums.
#[verifier::external_body]
fn thumbnail_exact(image: &Raster, new_width: u32, new_height: u32) -> (r: Raster)
    requires
        image.wf(),
        new_width <= image.width,
        new_height <= image.height,
        samples_to(image.width, image.height, new_width, new_height),
    ensures
        r.wf(),
        r.width == new_width,
        r.height == new_height,
        r.pixels@ == thumbnail_exact_pixels(image@, new_width, new_height),
{
    let buffer = image::RgbaImage::from_raw(image.width, image.height, image.pixels.clone());
    let scaled = image::DynamicImage::ImageRgba8(buffer.unwrap()).thumbnail_exact(
        new_width,
        new_height,
    ).into_rgba8();
    Raster { width: scaled.width(), height: scaled.height(), pixels: scaled.into_raw() }
}

/// Calls `image::DynamicImage::thumbnail` on the raster. The method picks
/// the new size itself, in floating point, and then scales as
/// `thumbnail_exact` does. It is documented to keep the aspect ratio and to
/// give the largest size that fits within the bounds, and its source never
/// lets a side fall below one pixel. The contract names the outcome and
/// claims that the buffer matches the size it reports and that no side is
/// zero; and, for a box that has no zero side, that the size lies within
/// the box, and, for a raster that has pixels, that no side has grown,
/// that the side on the limiting axis is as long as the box, and that the
/// other side is scaled alike to the nearest pixel. The last rests on the
/// method's arithmetic in double precision, which for the sides admitted
/// here errs by far less than the distance of any quotient from the next
/// half. Only rasters that do not fit are admitted, and only where no
/// block of source pixels is too large for the sampler's 32-bit sums.
#[verifier::external_body]
fn thumbnail(image: &Raster, box_width: u32, box_height: u32) -> (r: Raster)
    requires
        image.wf(),
        !fits_within(image.width, image.height, box_width, box_height),
        can_fit(image.width, image.height, box_width, box_height),
    ensures
        r.wf(),
        r@ == thumbnail_result(image@, box_width, box_height),
        r.width >= 1 && r.height >= 1,
        box_width >= 1 && box_height >= 1 ==> fits_within(
            r.width,
            r.height,
            box_width,
            box_height,
        ),
        box_width >= 1 && box_height >= 1 && image.width >= 1 && image.height >= 1 ==> r.width
            <= image.width && r.height <= image.height && (r.width == box_width || r.height
            == box_height) && keeps_ratio(
            image.width,
            image.height,
            box_width,
            box_height,
            r.width,
            r.height,
        ),
{
    let buffer = image::RgbaImage::from_raw(image.width, image.height, image.pixels.clone());
    let scaled = image::DynamicImage::ImageRgba8(buffer.unwrap()).thumbnail(
        box_width,
        box_height,
    ).into_rgba8();
    Raster { width: scaled.width(), height: scaled.height(), pixels: scaled.into_raw() }
}

/// What covering a square of side `size` makes of a raster.
pub open spec fn spec_shrink_outside(image: RasterView, size: u32) -> RasterView {
    if image.width > size && image.height > size {
        let target = cover_size(image.width, image.height, size);
        RasterView {
            width: target.0 as u32,
            height: target.1 as u32,
            pixels: thumbnail_exact_pixels(image, target.0 as u32, target.1 as u32),
        }
    } else {
        image
    }
}

/// What fitting within a box makes of a raster.
pub open spec fn spec_shrink_inside(image: RasterView, width: u32, height: u32) -> RasterView {
    if fits_within(image.width, image.height, width, height) {
        image
    } else {
        thumbnail_result(image, width, height)
    }
}

/// Whether the raster can be sampled down to this size.
pub fn check_samples_to(width: u32, height: u32, new_width: u32, new_height: u32) -> (r: bool)
    ensures
        r == samples_to(width, height, new_width, new_height),
{
    width == 0 || height == 0 || new_width == 0 || new_height == 0 || (width <= MAX_SAMPLED_SIDE
        && height <= MAX_SAMPLED_SIDE && width / new_width <= MAX_COVER_STEP && height
        / new_height <= MAX_COVER_STEP)
}

/// Whether `shrink_outside` takes this raster.
pub fn can_shrink_outside(image: &Raster, size: u32) -> (r: bool)
    ensures
        r == can_cover(image.width, image.height, size),
{
    if image.width > size && image.height > size {
        let (new_width, new_height) = cover_dimensions(image.width, image.height, size);
        check_samples_to(image.width, image.height, new_width, new_height)
    } else {
        true
    }
}

/// Whether `shrink_inside` takes this raster.
pub fn can_shrink_inside(image: &Raster, width: u32, height: u32) -> (r: bool)
    ensures
        r == can_fit(image.width, image.height, width, height),
{
    if image.width > width || image.height > height {
        if image.width == 0 || image.height == 0 {
            width < 0x4000_0000 && height < 0x4000_0000
        } else if image.width > MAX_SAMPLED_SIDE || image.height > MAX_SAMPLED_SIDE {
            false
        } else if width == 0 || height == 0 {
            assert(0 <= image.width * image.height <= 0x80_0000 * 0x80_0000) by (nonlinear_arith)
                requires
                    0 <= image.width <= 0x80_0000,
                    0 <= image.height <= 0x80_0000,
            ;
            (image.width as u64) * (image.height as u64) <= MAX_SAMPLED_BLOCK
        } else {
            image.width / width <= MAX_FIT_STEP && image.height / height <= MAX_FIT_STEP
        }
    } else {
        true
    }
}

/// Shrinks a raster so that its shorter side is `size`, keeping the aspect
/// ratio and cropping nothing. A raster with a side of at most `size` is
/// returned as it is. The raster must be one that can be sampled down to
/// the new size.
pub fn shrink_outside(image: Raster, size: u32) -> (r: Raster)
    requires
        image.wf(),
        can_cover(image.width, image.height, size),
    ensures
        r.wf(),
        r@ == spec_shrink_outside(image@, size),
        (r.width as int, r.height as int) == cover_size(image.width, image.height, size),
{
    if image.width > size && image.height > size {
        let (new_width, new_height) = cover_dimensions(image.width, image.height, size);
        thumbnail_exact(&image, new_width, new_height)
    } else {
        image
    }
}

/// Shrinks a raster to fit within a box, keeping the aspect ratio. A raster
/// that fits already is returned as it is. No side grows; the result lies
/// within the box, and where the raster was shrunk, the side on the
/// limiting axis is as long as the box and the other side is scaled alike
/// to the nearest pixel. The raster must be one that can be sampled down
/// by the scale that the box asks for.
pub fn shrink_inside(image: Raster, width: u32, height: u32) -> (r: Raster)
    requires
        image.wf(),
        can_fit(image.width, image.height, width, height),
    ensures
        r.wf(),
        r@ == spec_shrink_inside(image@, width, height),
        fits_shape(image.width, image.height, width, height, r.width, r.height),
{
    if image.width > width || image.height > height {
        thumbnail(&image, width, height)
    } else {
        image
    }
}

/// The shape of a fit, for a box without a zero side: the result lies
/// within the box; and for a raster that has pixels, no side has grown,
/// and either the raster fitted and has kept its size, or one side is as
/// long as the box and the ratio of the sides is kept.
pub open spec fn fits_shape(
    width: u32,
    height: u32,
    box_width: u32,
    box_height: u32,
    new_width: u32,
    new_height: u32,
) -> bool {
    box_width >= 1 && box_height >= 1 ==> {
        &&& fits_within(new_width, new_height, box_width, box_height)
        &&& width >= 1 && height >= 1 ==> {
            &&& new_width <= width
            &&& new_height <= height
            &&& new_width >= 1
            &&& new_height >= 1
            &&& if fits_within(width, height, box_width, box_height) {
                new_width == width && new_height == height
            } else {
                (new_width == box_width || new_height == box_height) && keeps_ratio(
                    width,
                    height,
                    box_width,
                    box_height,
                    new_width,
                    new_height,
                )
            }
        }
    }
}

/// Each frame covered as `shrink_outside` does, its delay kept.
pub open spec fn spec_shrink_outside_vec(frames: Seq<FrameView>, size: u32) -> Seq<FrameView> {
    frames.map_values(
        |f: FrameView| FrameView { raster: spec_shrink_outside(f.raster, size), delay: f.delay },
    )
}

/// Each frame fitted as `shrink_inside` does, its delay kept.
pub open spec fn spec_shrink_inside_vec(frames: Seq<FrameView>, width: u32, height: u32) -> Seq<
    FrameView,
> {
    frames.map_values(
        |f: FrameView|
            FrameView { raster: spec_shrink_inside(f.raster, width, height), delay: f.delay },
    )
}

/// Every frame can be covered.
pub open spec fn all_can_cover(frames: Seq<FrameView>, size: u32) -> bool {
    forall|k: int|
        0 <= k < frames.len() ==> can_cover(
            (#[trigger] frames[k]).raster.width,
            frames[k].raster.height,
            size,
        )
}

/// Every frame can be fitted.
pub open spec fn all_can_fit(frames: Seq<FrameView>, width: u32, height: u32) -> bool {
    forall|k: int|
        0 <= k < frames.len() ==> can_fit(
            (#[trigger] frames[k]).raster.width,
            frames[k].raster.height,
            width,
            height,
        )
}

/// Applies `shrink_outside` to every frame, in order.
pub fn shrink_outside_vec(images: Vec<Frame>, size: u32) -> (r: Vec<Frame>)
    requires
        all_wf(frame_views(images@)),
        all_can_cover(frame_views(images@), size),
    ensures
        all_wf(frame_views(r@)),
        frame_views(r@) == spec_shrink_outside_vec(frame_views(images@), size),
{
    let ghost before = frame_views(images@);
    let mut out: Vec<Frame> = Vec::new();
    for frame in it: images
        invariant
            before == frame_views(it.seq()),
            all_wf(before),
            all_can_cover(before, size),
            out@.len() == it.index(),
            forall|k: int|
                0 <= k < out@.len() ==> (#[trigger] out@[k])@ == spec_shrink_outside_vec(
                    before,
                    size,
                )[k],
            forall|k: int| 0 <= k < out@.len() ==> (#[trigger] out@[k]).wf(),
    {
        assert(before[it.index() as int] == frame@);
        assert(before[it.index() as int].wf());
        let delay = frame.delay;
        let raster = shrink_outside(frame.raster, size);
        out.push(Frame { raster, delay });
    }
    assert(frame_views(out@) =~= spec_shrink_outside_vec(before, size));
    out
}

/// Applies `shrink_inside` to every frame, in order.
pub fn shrink_inside_vec(images: Vec<Frame>, width: u32, height: u32) -> (r: Vec<Frame>)
    requires
        all_wf(frame_views(images@)),
        all_can_fit(frame_views(images@), width, height),
    ensures
        all_wf(frame_views(r@)),
        frame_views(r@) == spec_shrink_inside_vec(frame_views(images@), width, height),
        r@.len() == images@.len(),
        forall|k: int|
            0 <= k < r@.len() ==> fits_shape(
                images@[k].raster.width,
                images@[k].raster.height,
                width,
                height,
                (#[trigger] r@[k]).raster.width,
                r@[k].raster.height,
            ),
{
    let ghost before = frame_views(images@);
    let ghost given = images@;
    let mut out: Vec<Frame> = Vec::new();
    for frame in it: images
        invariant
            before == frame_views(it.seq()),
            given == it.seq(),
            all_wf(before),
            all_can_fit(before, width, height),
            out@.len() == it.index(),
            forall|k: int|
                0 <= k < out@.len() ==> (#[trigger] out@[k])@ == spec_shrink_inside_vec(
                    before,
                    width,
                    height,
                )[k],
            forall|k: int| 0 <= k < out@.len() ==> (#[trigger] out@[k]).wf(),
            forall|k: int|
                0 <= k < out@.len() ==> fits_shape(
                    given[k].raster.width,
                    given[k].raster.height,
                    width,
                    height,
                    (#[trigger] out@[k]).raster.width,
                    out@[k].raster.height,
                ),
    {
        assert(before[it.index() as int] == frame@);
        assert(before[it.index() as int].wf());
        let delay = frame.delay;
        let raster = shrink_inside(frame.raster, width, height);
        out.push(Frame { raster, delay });
    }
    assert(frame_views(out@) =~= spec_shrink_inside_vec(before, width, height));
    out
}

} // verus!
