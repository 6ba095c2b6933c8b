//! From downloaded bytes to frames: the format is sniffed from the bytes,
//! animated files give all their frames, and the stored orientation is
//! applied to each.

use vstd::prelude::*;
use crate::format::Format;
use crate::format::OtherFormat;
use crate::raster::all_wf;
use crate::raster::frame_set_wf;
use crate::raster::frame_views;
use crate::raster::Delay;
use crate::raster::Frame;
use crate::raster::FrameView;
use crate::raster::Raster;
use crate::raster::RasterView;

verus! {

/// `image::ImageError`, carried as a value that is never looked into.
#[verifier::external_type_specification]
#[verifier::external_body]
pub struct ExImageError(image::ImageError);

/// A rotation or flip stored beside the pixels.
#[derive(Clone, Copy, Debug, PartialEq, Eq, Structural)]
pub enum Orientation {
    NoTransforms,
    Rotate90,
    Rotate180,
    Rotate270,
    FlipHorizontal,
    FlipVertical,
    Rotate90FlipH,
    Rotate270FlipH,
}

impl Orientation {
    /// Whether applying it exchanges width and height.
    pub open spec fn swaps_sides(&self) -> bool {
        self is Rotate90 || self is Rotate270 || self is Rotate90FlipH || self is Rotate270FlipH
    }
}

pub enum DecodeImageError {
    /// The bytes are of no known format, or hold an animation where
    /// animations are not handled.
    Unsupported,
    /// The codec refused the bytes.
    ImageError(image::ImageError),
    /// The codec gave no frame, or a frame whose buffer or delay is not
    /// well-formed.
    Malformed,
}

/// The format that `image::guess_format` finds in the leading bytes.
pub uninterp spec fn sniffed_format(data: Seq<u8>) -> Option<Format>;

/// What `image::codecs::png::PngDecoder::is_apng` reports.
pub uninterp spec fn png_animated(data: Seq<u8>) -> Result<bool, image::ImageError>;

/// What `image::codecs::webp::WebPDecoder::has_animation` reports.
pub uninterp spec fn webp_animated(data: Seq<u8>) -> Result<bool, image::ImageError>;

/// The frames that `image::codecs::gif::GifDecoder` yields.
pub uninterp spec fn gif_frames_of(data: Seq<u8>) -> Result<Seq<FrameView>, image::ImageError>;

/// The frames that `image::codecs::png::ApngDecoder` yields.
pub uninterp spec fn apng_frames_of(data: Seq<u8>) -> Result<Seq<FrameView>, image::ImageError>;

/// The frames that `image::codecs::webp::WebPDecoder` yields.
pub uninterp spec fn webp_frames_of(data: Seq<u8>) -> Result<Seq<FrameView>, image::ImageError>;

/// The picture that `image::codecs::png::PngDecoder` decodes, as RGBA.
pub uninterp spec fn png_still_of(data: Seq<u8>) -> Result<RasterView, image::ImageError>;

/// The picture that `image::codecs::webp::WebPDecoder` decodes, as RGBA.
pub uninterp spec fn webp_still_of(data: Seq<u8>) -> Result<RasterView, image::ImageError>;

/// The picture that the decoder of `image::ImageReader::into_decoder`
/// decodes for the given format, as RGBA.
pub uninterp spec fn other_still_of(data: Seq<u8>, format: Format) -> Result<
    RasterView,
    image::ImageError,
>;

/// The orientation that `image::ImageDecoder::orientation` reads.
pub uninterp spec fn stored_orientation(data: Seq<u8>) -> Option<Orientation>;

/// The raster that `image::DynamicImage::apply_orientation` leaves.
pub uninterp spec fn oriented(image: RasterView, orientation: Orientation) -> RasterView;

/// Calls `image::guess_format`, which compares the leading bytes with a
/// fixed table of signatures. The contract names the outcome.
#[verifier::external_body]
fn sniff(data: &[u8]) -> (r: Option<Format>)
    ensures
        r == sniffed_format(data@),
{
    match image::guess_format(data).ok() {
        Some(image::ImageFormat::WebP) => Some(Format::WebP),
        Some(image::ImageFormat::Gif) => Some(Format::Gif),
        Some(image::ImageFormat::Png) => Some(Format::Png),
        Some(image::ImageFormat::Avif) => Some(Format::Avif),
        Some(named) => Some(Format::Other(OtherFormat { named })),
        None => None,
    }
}

/// Opens the bytes with `image::codecs::png::PngDecoder::new` and asks
/// `is_apng`. The contract names the answer.
#[verifier::external_body]
fn png_is_animated(data: &[u8]) -> (r: Result<bool, image::ImageError>)
    ensures
        r == png_animated(data@),
{
    image::codecs::png::PngDecoder::new(std::io::Cursor::new(data))?.is_apng()
}

/// Opens the bytes with `image::codecs::webp::WebPDecoder::new` and asks
/// `has_animation`. The contract names the answer.
#[verifier::external_body]
fn webp_is_animated(data: &[u8]) -> (r: Result<bool, image::ImageError>)
    ensures
        r == webp_animated(data@),
{
    Ok(image::codecs::webp::WebPDecoder::new(std::io::Cursor::new(data))?.has_animation())
}

/// The frames of a decoder's answer as mathematical values.
pub open spec fn frames_result_view(r: Result<Vec<Frame>, image::ImageError>) -> Result<
    Seq<FrameView>,
    image::ImageError,
> {
    match r {
        Ok(frames) => Ok(frame_views(frames@)),
        Err(e) => Err(e),
    }
}

/// The raster of a decoder's answer as a mathematical value.
pub open spec fn raster_result_view(r: Result<Raster, image::ImageError>) -> Result<
    RasterView,
    image::ImageError,
> {
    match r {
        Ok(raster) => Ok(raster@),
        Err(e) => Err(e),
    }
}

/// Collects all frames of a GIF with `image::codecs::gif::GifDecoder` and
/// `image::Frames::collect_frames`, and copies each buffer and delay out.
/// The contract names the outcome and claims nothing of its shape.
#[verifier::external_body]
fn gif_frames(data: &[u8]) -> (r: Result<Vec<Frame>, image::ImageError>)
    ensures
        frames_result_view(r) == gif_frames_of(data@),
{
    let decoder = image::codecs::gif::GifDecoder::new(std::io::Cursor::new(data))?;
    let frames = image::AnimationDecoder::into_frames(decoder).collect_frames()?;
    Ok(frames.into_iter().map(|f| {
        let (numer, denom) = f.delay().numer_denom_ms();
        let b = f.into_buffer();
        Frame {
            raster: Raster { width: b.width(), height: b.height(), pixels: b.into_raw() },
            delay: Delay { numer, denom },
        }
    }).collect())
}

/// Collects all frames of an animated PNG with
/// `image::codecs::png::PngDecoder::apng` and
/// `image::Frames::collect_frames`, and copies each buffer and delay out.
/// The contract names the outcome and claims nothing of its shape.
#[verifier::external_body]
fn apng_frames(data: &[u8]) -> (r: Result<Vec<Frame>, image::ImageError>)
    ensures
        frames_result_view(r) == apng_frames_of(data@),
{
    let decoder = image::codecs::png::PngDecoder::new(std::io::Cursor::new(data))?.apng()?;
    let frames = image::AnimationDecoder::into_frames(decoder).collect_frames()?;
    Ok(frames.into_iter().map(|f| {
        let (numer, denom) = f.delay().numer_denom_ms();
        let b = f.into_buffer();
        Frame {
            raster: Raster { width: b.width(), height: b.height(), pixels: b.into_raw() },
            delay: Delay { numer, denom },
        }
    }).collect())
}

/// Collects all frames of an animated WebP with
/// `image::codecs::webp::WebPDecoder` and `image::Frames::collect_frames`,
/// and copies each buffer and delay out. The contract names the outcome
/// and claims nothing of its shape.
#[verifier::external_body]
fn webp_frames(data: &[u8]) -> (r: Result<Vec<Frame>, image::ImageError>)
    ensures
        frames_result_view(r) == webp_frames_of(data@),
{
    let decoder = image::codecs::webp::WebPDecoder::new(std::io::Cursor::new(data))?;
    let frames = image::AnimationDecoder::into_frames(decoder).collect_frames()?;
    Ok(frames.into_iter().map(|f| {
        let (numer, denom) = f.delay().numer_denom_ms();
        let b = f.into_buffer();
        Frame {
            raster: Raster { width: b.width(), height: b.height(), pixels: b.into_raw() },
            delay: Delay { numer, denom },
        }
    }).collect())
}

/// Decodes a PNG as one picture with `image::DynamicImage::from_decoder`
/// and converts it to RGBA. The contract names the outcome.
#[verifier::external_body]
fn png_still(data: &[u8]) -> (r: Result<Raster, image::ImageError>)
    ensures
        raster_result_view(r) == png_still_of(data@),
{
    let decoder = image::codecs::png::PngDecoder::new(std::io::Cursor::new(data))?;
    let b = image::DynamicImage::from_decoder(decoder)?.into_rgba8();
    Ok(Raster { width: b.width(), height: b.height(), pixels: b.into_raw() })
}

/// Decodes a WebP as one picture with `image::DynamicImage::from_decoder`
/// and converts it to RGBA. The contract names the outcome.
#[verifier::external_body]
fn webp_still(data: &[u8]) -> (r: Result<Raster, image::ImageError>)
    ensures
        raster_result_view(r) == webp_still_of(data@),
{
    let decoder = image::codecs::webp::WebPDecoder::new(std::io::Cursor::new(data))?;
    let b = image::DynamicImage::from_decoder(decoder)?.into_rgba8();
    Ok(Raster { width: b.width(), height: b.height(), pixels: b.into_raw() })
}

/// Decodes a file of any other format as one picture: the decoder comes
/// from `image::ImageReader::into_decoder` on a reader made with
/// `with_format`, the picture from `image::DynamicImage::from_decoder`,
/// converted to RGBA. The contract names the outcome.
#[verifier::external_body]
fn other_still(data: &[u8], format: Format) -> (r: Result<Raster, image::ImageError>)
    ensures
        raster_result_view(r) == other_still_of(data@, format),
{
    let named = match format {
        Format::WebP => image::ImageFormat::WebP,
        Format::Gif => image::ImageFormat::Gif,
        Format::Png => image::ImageFormat::Png,
        Format::Avif => image::ImageFormat::Avif,
        Format::Other(other) => other.named,
    };
    let reader = image::ImageReader::with_format(std::io::Cursor::new(data), named);
    let b = image::DynamicImage::from_decoder(reader.into_decoder()?)?.into_rgba8();
    Ok(Raster { width: b.width(), height: b.height(), pixels: b.into_raw() })
}

/// Reads the stored orientation with `image::ImageDecoder::orientation`,
/// on the decoder that `image::ImageReader::into_decoder` makes, without
/// limits, for the format that `image::guess_format` finds; `None` where
/// there is no decoder or it reports an error. The contract names the
/// outcome.
#[verifier::external_body]
fn read_orientation(data: &[u8]) -> (r: Option<Orientation>)
    ensures
        r == stored_orientation(data@),
{
    let format = image::guess_format(data).ok()?;
    let mut reader = image::ImageReader::with_format(std::io::Cursor::new(data), format);
    reader.no_limits();
    let mut decoder = reader.into_decoder().ok()?;
    Some(match image::ImageDecoder::orientation(&mut decoder).ok()? {
        image::metadata::Orientation::NoTransforms => Orientation::NoTransforms,
        image::metadata::Orientation::Rotate90 => Orientation::Rotate90,
        image::metadata::Orientation::Rotate180 => Orientation::Rotate180,
        image::metadata::Orientation::Rotate270 => Orientation::Rotate270,
        image::metadata::Orientation::FlipHorizontal => Orientation::FlipHorizontal,
        image::metadata::Orientation::FlipVertical => Orientation::FlipVertical,
        image::metadata::Orientation::Rotate90FlipH => Orientation::Rotate90FlipH,
        image::metadata::Orientation::Rotate270FlipH => Orientation::Rotate270FlipH,
    })
}

/// One byte of a raster: channel `c` of the pixel in column `x` of row
/// `y`.
pub open spec fn channel(image: RasterView, x: int, y: int, c: int) -> u8 {
    image.pixels[4 * (y * image.width + x) + c]
}

/// Whether `out` is `image` turned by a quarter clockwise: the sides are
/// exchanged, and the pixel in column `x` of row `y` is the one that stood
/// in column `y`, counted `x` rows up from the last row.
pub open spec fn quarter_turned(image: RasterView, out: RasterView) -> bool {
    &&& out.width == image.height
    &&& out.height == image.width
    &&& forall|x: int, y: int, c: int|
        0 <= x < out.width && 0 <= y < out.height && 0 <= c < 4 ==> #[trigger] channel(
            out,
            x,
            y,
            c,
        ) == channel(image, y, image.height - 1 - x, c)
}

/// How a frame stands to the frame it was made of by an orientation: the
/// delay is the same; a quarter turn has exchanged the sides, and every
/// other orientation has kept them; without an orientation, or with the
/// one that changes nothing, the raster is the same; and after the quarter
/// turn clockwise every pixel stands where that turn puts it.
pub open spec fn turned_like(raw: FrameView, out: FrameView, orientation: Option<Orientation>) -> bool {
    let swap = orientation is Some && orientation->0.swaps_sides();
    &&& out.delay == raw.delay
    &&& out.raster.width == (if swap {
        raw.raster.height
    } else {
        raw.raster.width
    })
    &&& out.raster.height == (if swap {
        raw.raster.width
    } else {
        raw.raster.height
    })
    &&& orientation is None || orientation == Some(Orientation::NoTransforms) ==> out.raster
        == raw.raster
    &&& orientation == Some(Orientation::Rotate90) ==> quarter_turned(raw.raster, out.raster)
}

/// Every frame stands to the frame of the same index as `turned_like`
/// says.
pub open spec fn all_turned_like(
    raw: Seq<FrameView>,
    out: Seq<FrameView>,
    orientation: Option<Orientation>,
) -> bool {
    &&& out.len() == raw.len()
    &&& forall|i: int| 0 <= i < out.len() ==> turned_like(raw[i], #[trigger] out[i], orientation)
}

/// Calls `image::DynamicImage::apply_orientation`. The quarter turns build
/// a new buffer with the sides exchanged, the other orientations work in
/// place, and `NoTransforms` does nothing; the contract claims the
/// resulting size, that the buffer matches it, that `NoTransforms` leaves
/// the raster as it is, and where the quarter turn clockwise puts each
/// pixel; and it names the pixels.
#[verifier::external_body]
fn orient(image: &Raster, orientation: Orientation) -> (r: Raster)
    requires
        image.wf(),
    ensures
        r.wf(),
        r@ == oriented(image@, orientation),
        orientation is NoTransforms ==> r@ == image@,
        orientation is Rotate90 ==> quarter_turned(image@, r@),
        r.width == (if orientation.swaps_sides() {
            image.height
        } else {
            image.width
        }),
        r.height == (if orientation.swaps_sides() {
            image.width
        } else {
            image.height
        }),
{
    let buffer = image::RgbaImage::from_raw(image.width, image.height, image.pixels.clone());
    let mut picture = image::DynamicImage::ImageRgba8(buffer.unwrap());
    picture.apply_orientation(match orientation {
        Orientation::NoTransforms => image::metadata::Orientation::NoTransforms,
        Orientation::Rotate90 => image::metadata::Orientation::Rotate90,
        Orientation::Rotate180 => image::metadata::Orientation::Rotate180,
        Orientation::Rotate270 => image::metadata::Orientation::Rotate270,
        Orientation::FlipHorizontal => image::metadata::Orientation::FlipHorizontal,
        Orientation::FlipVertical => image::metadata::Orientation::FlipVertical,
        Orientation::Rotate90FlipH => image::metadata::Orientation::Rotate90FlipH,
        Orientation::Rotate270FlipH => image::metadata::Orientation::Rotate270FlipH,
    });
    let b = picture.into_rgba8();
    Raster { width: b.width(), height: b.height(), pixels: b.into_raw() }
}

/// A still picture as a frame set: one frame, shown for no time.
pub open spec fn still_frames(still: Result<RasterView, image::ImageError>) -> Result<
    Seq<FrameView>,
    image::ImageError,
> {
    match still {
        Ok(raster) => Ok(seq![FrameView { raster, delay: Delay { numer: 0, denom: 1 } }]),
        Err(e) => Err(e),
    }
}

/// The frames of a file that may or may not be animated.
pub open spec fn either_frames(
    animated: Result<bool, image::ImageError>,
    frames: Result<Seq<FrameView>, image::ImageError>,
    still: Result<RasterView, image::ImageError>,
) -> Result<Seq<FrameView>, image::ImageError> {
    match animated {
        Err(e) => Err(e),
        Ok(true) => frames,
        Ok(false) => still_frames(still),
    }
}

/// What the codec gives for bytes of a known format: every frame of a GIF,
/// of an animated PNG or of an animated WebP, and one frame otherwise.
pub open spec fn raw_frames(data: Seq<u8>, format: Format) -> Result<
    Seq<FrameView>,
    image::ImageError,
> {
    match format {
        Format::Gif => gif_frames_of(data),
        Format::Png => either_frames(png_animated(data), apng_frames_of(data), png_still_of(data)),
        Format::WebP => either_frames(
            webp_animated(data),
            webp_frames_of(data),
            webp_still_of(data),
        ),
        _ => still_frames(other_still_of(data, format)),
    }
}

/// Every frame turned as the stored orientation says, its delay kept.
pub open spec fn orient_all(frames: Seq<FrameView>, orientation: Option<Orientation>) -> Seq<
    FrameView,
> {
    match orientation {
        None => frames,
        Some(o) => frames.map_values(
            |f: FrameView| FrameView { raster: oriented(f.raster, o), delay: f.delay },
        ),
    }
}

/// What becomes of the codec's answer: its error is handed on; an answer
/// that is no well-formed frame set is malformed; an animation is refused
/// where animations are not handled; else every frame is oriented.
pub open spec fn spec_assemble(
    raw: Result<Seq<FrameView>, image::ImageError>,
    orientation: Option<Orientation>,
    allow_animation: bool,
) -> Result<Seq<FrameView>, DecodeImageError> {
    match raw {
        Err(e) => Err(DecodeImageError::ImageError(e)),
        Ok(frames) => if !frame_set_wf(frames) {
            Err(DecodeImageError::Malformed)
        } else if !allow_animation && frames.len() > 1 {
            Err(DecodeImageError::Unsupported)
        } else {
            Ok(orient_all(frames, orientation))
        },
    }
}

/// What `decode_image` returns.
pub open spec fn spec_decode_image(data: Seq<u8>, allow_animation: bool) -> Result<
    Seq<FrameView>,
    DecodeImageError,
> {
    match sniffed_format(data) {
        None => Err(DecodeImageError::Unsupported),
        Some(format) => spec_assemble(
            raw_frames(data, format),
            stored_orientation(data),
            allow_animation,
        ),
    }
}

pub open spec fn decoded_view(r: Result<Vec<Frame>, DecodeImageError>) -> Result<
    Seq<FrameView>,
    DecodeImageError,
> {
    match r {
        Ok(frames) => Ok(frame_views(frames@)),
        Err(e) => Err(e),
    }
}

/// A still picture as a frame set.
pub fn static_image(still: Result<Raster, image::ImageError>) -> (r: Result<
    Vec<Frame>,
    image::ImageError,
>)
    ensures
        frames_result_view(r) == still_frames(raster_result_view(still)),
{
    match still {
        Ok(raster) => {
            let mut frames: Vec<Frame> = Vec::new();
            frames.push(Frame { raster, delay: Delay::zero() });
            assert(frame_views(frames@) =~= seq![frames@[0]@]);
            Ok(frames)
        },
        Err(e) => Err(e),
    }
}

/// Applies the stored orientation, if there is one, to every frame. A
/// quarter turn exchanges the sides of each.
pub fn frames_to_images(frames: Vec<Frame>, orientation: Option<Orientation>) -> (r: Vec<Frame>)
    requires
        all_wf(frame_views(frames@)),
    ensures
        all_wf(frame_views(r@)),
        frame_views(r@) == orient_all(frame_views(frames@), orientation),
        all_turned_like(frame_views(frames@), frame_views(r@), orientation),
{
    assert(frame_views(frames@).len() == frames@.len());
    match orientation {
        None => frames,
        Some(o) => {
            let ghost before = frame_views(frames@);
            let mut out: Vec<Frame> = Vec::new();
            let mut i: usize = 0;
            while i < frames.len()
                invariant
                    i <= frames@.len(),
                    before == frame_views(frames@),
                    before.len() == frames@.len(),
                    all_wf(before),
                    out@.len() == i,
                    forall|k: int|
                        0 <= k < i ==> {
                            &&& (#[trigger] out@[k]).wf()
                            &&& out@[k]@ == orient_all(before, Some(o))[k]
                            &&& turned_like(before[k], out@[k]@, Some(o))
                        },
                decreases frames@.len() - i,
            {
                assert(before[i as int] == frames@[i as int]@);
                assert(before[i as int].wf());
                let raster = orient(&frames[i].raster, o);
                out.push(Frame { raster, delay: frames[i].delay });
                i = i + 1;
            }
            assert(frame_views(out@) =~= orient_all(before, Some(o)));
            out
        },
    }
}

/// Whether the frames form a frame set: at least one, each with a buffer
/// that matches its size and a delay with a denominator.
pub fn is_frame_set(frames: &Vec<Frame>) -> (r: bool)
    ensures
        r == frame_set_wf(frame_views(frames@)),
{
    if frames.len() == 0 {
        return false;
    }
    let mut i: usize = 0;
    while i < frames.len()
        invariant
            i <= frames@.len(),
            forall|k: int| 0 <= k < i ==> (#[trigger] frame_views(frames@)[k]).wf(),
        decreases frames@.len() - i,
    {
        if !frames[i].raster.is_consistent() || frames[i].delay.denom == 0 {
            assert(!frame_views(frames@)[i as int].wf());
            return false;
        }
        i = i + 1;
    }
    true
}

/// Turns the codec's answer into the frame set of the file, or says why
/// there is none.
pub fn assemble(
    raw: Result<Vec<Frame>, image::ImageError>,
    orientation: Option<Orientation>,
    allow_animation: bool,
) -> (r: Result<Vec<Frame>, DecodeImageError>)
    ensures
        decoded_view(r) == spec_assemble(frames_result_view(raw), orientation, allow_animation),
        r matches Ok(frames) ==> frame_set_wf(frame_views(frames@)) && raw is Ok
            && all_turned_like(frame_views(raw->Ok_0@), frame_views(frames@), orientation),
{
    match raw {
        Err(e) => Err(DecodeImageError::ImageError(e)),
        Ok(frames) => {
            if !is_frame_set(&frames) {
                Err(DecodeImageError::Malformed)
            } else if !allow_animation && frames.len() > 1 {
                Err(DecodeImageError::Unsupported)
            } else {
                Ok(frames_to_images(frames, orientation))
            }
        },
    }
}

/// Decodes bytes whose format is known.
pub fn decode_image_format(data: &[u8], format: Format) -> (r: Result<
    Vec<Frame>,
    image::ImageError,
>)
    ensures
        frames_result_view(r) == raw_frames(data@, format),
{
    match format {
        Format::Gif => gif_frames(data),
        Format::Png => match png_is_animated(data) {
            Err(e) => Err(e),
            Ok(true) => apng_frames(data),
            Ok(false) => static_image(png_still(data)),
        },
        Format::WebP => match webp_is_animated(data) {
            Err(e) => Err(e),
            Ok(true) => webp_frames(data),
            Ok(false) => static_image(webp_still(data)),
        },
        _ => static_image(other_still(data, format)),
    }
}

/// Decodes downloaded bytes into a frame set. The format is taken from the
/// bytes alone. With `allow_animation` unset, a file of more than one frame
/// is refused as unsupported. Every frame is the codec's frame of the same
/// index, turned as the stored orientation says.
pub fn decode_image(downloaded_bytes: &[u8], allow_animation: bool) -> (r: Result<
    Vec<Frame>,
    DecodeImageError,
>)
    ensures
        decoded_view(r) == spec_decode_image(downloaded_bytes@, allow_animation),
        r matches Ok(frames) ==> frame_set_wf(frame_views(frames@)) && sniffed_format(
            downloaded_bytes@,
        ) is Some && raw_frames(downloaded_bytes@, sniffed_format(downloaded_bytes@)->0) is Ok
            && all_turned_like(
            raw_frames(downloaded_bytes@, sniffed_format(downloaded_bytes@)->0)->Ok_0,
            frame_views(frames@),
            stored_orientation(downloaded_bytes@),
        ),
{
    match sniff(downloaded_bytes) {
        Some(format) => {
            let raw = decode_image_format(downloaded_bytes, format);
            let orientation = read_orientation(downloaded_bytes);
            assemble(raw, orientation, allow_animation)
        },
        None => Err(DecodeImageError::Unsupported),
    }
}

} // verus!
