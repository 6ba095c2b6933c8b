//! From frames to bytes in the target container. An animated WebP is built
//! frame by frame, each frame placed at the time that the delays before it
//! add up to.

use vstd::prelude::*;
use crate::format::format_mime;
use crate::format::mime_type;
use crate::format::Format;
use crate::raster::all_wf;
use crate::raster::frame_set_wf;
use crate::raster::frame_views;
use crate::raster::rgba_len;
use crate::raster::Frame;
use crate::raster::FrameView;
use crate::raster::Raster;
use crate::raster::RasterView;

verus! {

/// `webp_animation::Encoder`, of which only `webp_state` speaks.
#[verifier::external_type_specification]
#[verifier::external_body]
pub struct ExWebpEncoder(webp_animation::Encoder);

/// `webp_animation::Error`, carried as a value that is never looked into.
#[verifier::external_type_specification]
#[verifier::external_body]
pub struct ExWebpError(webp_animation::Error);

/// Encoded bytes with their media type.
pub struct BytesAndMime(pub Vec<u8>, pub String);

pub enum EncodeError {
    /// The delays add up to more milliseconds than a timestamp can hold.
    DurationOverflow,
    /// The WebP encoder failed.
    WebP(webp_animation::Error),
    /// The encoder of another format failed.
    Image(image::ImageError),
}

/// The whole milliseconds that the first `n` frames are shown for.
pub open spec fn elapsed_ms(frames: Seq<FrameView>, n: int) -> int
    decreases n,
{
    if n <= 0 {
        0
    } else {
        elapsed_ms(frames, n - 1) + frames[n - 1].delay.spec_whole_ms()
    }
}

/// The time passed never decreases from one frame to the next.
pub proof fn lemma_elapsed_monotonic(frames: Seq<FrameView>, i: int, j: int)
    requires
        all_wf(frames),
        0 <= i <= j <= frames.len(),
    ensures
        0 <= elapsed_ms(frames, i) <= elapsed_ms(frames, j),
    decreases j,
{
    if j > 0 {
        assert(frames[j - 1].wf());
        assert(frames[j - 1].delay.spec_whole_ms() >= 0) by (nonlinear_arith)
            requires
                frames[j - 1].delay.denom > 0,
                frames[j - 1].delay.numer >= 0,
                frames[j - 1].delay.spec_whole_ms() == (frames[j - 1].delay.numer as int) / (
                frames[j - 1].delay.denom as int),
        ;
        if i < j {
            lemma_elapsed_monotonic(frames, i, j - 1);
        } else {
            lemma_elapsed_monotonic(frames, i - 1, j - 1);
        }
    }
}

/// When each frame of an animation appears, and how long the whole lasts.
pub struct Schedule {
    pub starts: Vec<i32>,
    pub total: i32,
}

/// Frame `i` starts when the frames before it have been shown, each for
/// its delay in whole milliseconds; the total is the time of all frames.
pub open spec fn schedule_matches(schedule: Schedule, frames: Seq<FrameView>) -> bool {
    &&& schedule.starts@.len() == frames.len()
    &&& forall|i: int|
        0 <= i < frames.len() ==> (#[trigger] schedule.starts@[i]) == elapsed_ms(frames, i)
    &&& schedule.total == elapsed_ms(frames, frames.len() as int)
}

/// The timestamps of an animation. There are none where the total time
/// exceeds what a timestamp can hold.
pub fn timestamps(frames: &Vec<Frame>) -> (r: Option<Schedule>)
    requires
        all_wf(frame_views(frames@)),
    ensures
        r is Some <==> elapsed_ms(frame_views(frames@), frames@.len() as int) <= i32::MAX,
        r matches Some(schedule) ==> schedule_matches(schedule, frame_views(frames@)),
{
    let ghost views = frame_views(frames@);
    let mut starts: Vec<i32> = Vec::new();
    let mut now: i32 = 0;
    let mut i: usize = 0;
    while i < frames.len()
        invariant
            i <= frames@.len(),
            views == frame_views(frames@),
            all_wf(views),
            starts@.len() == i,
            0 <= now == elapsed_ms(views, i as int),
            forall|k: int| 0 <= k < i ==> (#[trigger] starts@[k]) == elapsed_ms(views, k),
        decreases frames@.len() - i,
    {
        assert(views[i as int] == frames@[i as int]@);
        assert(views[i as int].wf());
        let ms: u32 = frames[i].delay.whole_ms();
        assert(elapsed_ms(views, i + 1) == now + ms);
        if ms > 0x7FFF_FFFF || now > 0x7FFF_FFFF - (ms as i32) {
            proof {
                assert(views.len() == frames@.len());
                lemma_elapsed_monotonic(views, i + 1, frames@.len() as int);
            }
            return None;
        }
        starts.push(now);
        now = now + (ms as i32);
        i = i + 1;
    }
    Some(Schedule { starts, total: now })
}

/// How the WebP encoder is set up.
#[derive(Clone, Copy, Debug, PartialEq, Eq, Structural)]
pub struct WebpSettings {
    pub loop_count: i32,
    pub allow_mixed: bool,
    pub alpha_quality: usize,
    pub quality: u8,
    pub method: usize,
}

/// An endless loop, lossy with alpha quality 95, quality 77, method 2,
/// mixed lossy and lossless frames allowed.
pub fn webp_settings() -> (s: WebpSettings)
    ensures
        s == (WebpSettings {
            loop_count: 0,
            allow_mixed: true,
            alpha_quality: 95,
            quality: 77,
            method: 2,
        }),
{
    WebpSettings { loop_count: 0, allow_mixed: true, alpha_quality: 95, quality: 77, method: 2 }
}

/// What a WebP encoder was made with and what it was given so far: each
/// frame's pixels with its timestamp.
pub struct WebpState {
    pub width: u32,
    pub height: u32,
    pub settings: WebpSettings,
    pub frames: Seq<(Seq<u8>, i32)>,
}

/// What a `webp_animation::Encoder` holds.
pub uninterp spec fn webp_state(encoder: webp_animation::Encoder) -> WebpState;

/// The bytes that `webp_animation::Encoder::finalize` assembles from what
/// the encoder holds and the time at which the animation ends.
pub uninterp spec fn webp_assembled(state: WebpState, end_ms: i32) -> Seq<u8>;

/// The error with which `webp_animation::Encoder::new_with_options`
/// refuses a size and settings, if it refuses them.
pub uninterp spec fn webp_new_error(width: u32, height: u32, settings: WebpSettings) -> Option<
    webp_animation::Error,
>;

/// The error with which `webp_animation::Encoder::add_frame` refuses a
/// frame, given what the encoder holds, if it refuses it.
pub uninterp spec fn webp_add_error(state: WebpState, data: Seq<u8>, timestamp_ms: i32) -> Option<
    webp_animation::Error,
>;

/// The error with which `webp_animation::Encoder::finalize` refuses to
/// assemble what the encoder holds, if it refuses.
pub uninterp spec fn webp_finalize_error(state: WebpState, end_ms: i32) -> Option<
    webp_animation::Error,
>;

/// The timestamp of the frame added last, and -1 where none was added.
pub open spec fn last_timestamp(state: WebpState) -> int {
    if state.frames.len() == 0 {
        -1
    } else {
        state.frames.last().1 as int
    }
}

/// The bytes that `image::codecs::gif::GifEncoder::encode_frames` writes.
pub uninterp spec fn gif_encoded(frames: Seq<FrameView>) -> Result<Seq<u8>, image::ImageError>;

/// The bytes that `image::DynamicImage::write_to` writes for an RGBA
/// picture in a format other than AVIF.
pub uninterp spec fn still_encoded(image: RasterView, format: Format) -> Result<
    Seq<u8>,
    image::ImageError,
>;

/// Calls `webp_animation::Encoder::new_with_options` with a lossy
/// configuration made of the settings, all else at its default. The
/// contract names the error of a refusal and claims that a new encoder
/// holds no frame, and that a size with a zero side is refused. The size
/// must be one whose buffer length can be counted: the encoder computes it
/// for every frame.
#[verifier::external_body]
fn webp_encoder(width: u32, height: u32, settings: WebpSettings) -> (r: Result<
    webp_animation::Encoder,
    webp_animation::Error,
>)
    requires
        rgba_len(width, height) <= usize::MAX,
    ensures
        match r {
            Ok(encoder) => webp_new_error(width, height, settings) is None && webp_state(encoder)
                == (WebpState { width, height, settings, frames: Seq::empty() }),
            Err(e) => webp_new_error(width, height, settings) == Some(e),
        },
        width == 0 || height == 0 ==> r is Err,
{
    let lossy = webp_animation::LossyEncodingConfig {
        alpha_quality: settings.alpha_quality,
        ..Default::default()
    };
    let config = webp_animation::EncodingConfig {
        encoding_type: webp_animation::EncodingType::Lossy(lossy),
        quality: settings.quality.into(),
        method: settings.method,
    };
    webp_animation::Encoder::new_with_options((width, height), webp_animation::EncoderOptions {
        anim_params: webp_animation::AnimParams { loop_count: settings.loop_count },
        allow_mixed: settings.allow_mixed,
        encoding_config: Some(config),
        ..Default::default()
    })
}

/// Calls `webp_animation::Encoder::add_frame`. The contract names the
/// error of a refusal and claims that on success the encoder holds one
/// frame more, the one given. Of the refusals it claims the two that the
/// method checks itself: a timestamp that is not above the last one, and a
/// buffer that does not hold four bytes for each pixel of the encoder's
/// size.
#[verifier::external_body]
fn webp_add_frame(encoder: &mut webp_animation::Encoder, data: &[u8], timestamp_ms: i32) -> (r:
    Result<(), webp_animation::Error>)
    ensures
        match r {
            Ok(()) => webp_add_error(webp_state(*old(encoder)), data@, timestamp_ms) is None
                && webp_state(*final(encoder)) == (WebpState {
                frames: webp_state(*old(encoder)).frames.push((data@, timestamp_ms)),
                ..webp_state(*old(encoder))
            }),
            Err(e) => webp_add_error(webp_state(*old(encoder)), data@, timestamp_ms) == Some(e),
        },
        timestamp_ms <= last_timestamp(webp_state(*old(encoder))) ==> r is Err,
        data@.len() != rgba_len(
            webp_state(*old(encoder)).width,
            webp_state(*old(encoder)).height,
        ) ==> r is Err,
{
    encoder.add_frame(data, timestamp_ms)
}

/// Calls `webp_animation::Encoder::finalize` and copies the bytes out. The
/// contract names the bytes of a success and the error of a refusal. Of
/// the refusals it claims the two that the method checks itself: an
/// encoder without frames, and an end before the last timestamp.
#[verifier::external_body]
fn webp_finalize(encoder: webp_animation::Encoder, end_ms: i32) -> (r: Result<
    Vec<u8>,
    webp_animation::Error,
>)
    ensures
        match r {
            Ok(bytes) => webp_finalize_error(webp_state(encoder), end_ms) is None && bytes@
                == webp_assembled(webp_state(encoder), end_ms),
            Err(e) => webp_finalize_error(webp_state(encoder), end_ms) == Some(e),
        },
        webp_state(encoder).frames.len() == 0 ==> r is Err,
        end_ms < last_timestamp(webp_state(encoder)) ==> r is Err,
{
    encoder.finalize(end_ms).map(|data| data.to_vec())
}

pub open spec fn bytes_result_view(r: Result<Vec<u8>, image::ImageError>) -> Result<
    Seq<u8>,
    image::ImageError,
> {
    match r {
        Ok(bytes) => Ok(bytes@),
        Err(e) => Err(e),
    }
}

/// Hands all frames, with their delays, to
/// `image::codecs::gif::GifEncoder::encode_frames`. The contract names the
/// outcome.
#[verifier::external_body]
fn gif_encode(frames: &Vec<Frame>) -> (r: Result<Vec<u8>, image::ImageError>)
    requires
        all_wf(frame_views(frames@)),
    ensures
        bytes_result_view(r) == gif_encoded(frame_views(frames@)),
{
    let mut bytes: Vec<u8> = Vec::new();
    let converted = frames.iter().map(|f| {
        let pixels = f.raster.pixels.clone();
        let buffer = image::RgbaImage::from_raw(f.raster.width, f.raster.height, pixels).unwrap();
        let delay = image::Delay::from_numer_denom_ms(f.delay.numer, f.delay.denom);
        image::Frame::from_parts(buffer, 0, 0, delay)
    });
    image::codecs::gif::GifEncoder::new(&mut bytes).encode_frames(converted)?;
    Ok(bytes)
}

/// Writes one picture with `image::DynamicImage::write_to`. The contract
/// names the outcome for every format but AVIF: its encoder splits the
/// picture by the number of threads that the machine offers, and what it
/// writes depends on it, so of AVIF nothing is claimed.
#[verifier::external_body]
fn still_encode(image: &Raster, format: Format) -> (r: Result<Vec<u8>, image::ImageError>)
    requires
        image.wf(),
    ensures
        encoder_is_fixed(format) ==> bytes_result_view(r) == still_encoded(image@, format),
{
    let mut bytes: Vec<u8> = Vec::new();
    let buffer = image::RgbaImage::from_raw(image.width, image.height, image.pixels.clone());
    image::DynamicImage::ImageRgba8(buffer.unwrap()).write_to(
        &mut std::io::Cursor::new(&mut bytes),
        match format {
            Format::WebP => image::ImageFormat::WebP,
            Format::Gif => image::ImageFormat::Gif,
            Format::Png => image::ImageFormat::Png,
            Format::Avif => image::ImageFormat::Avif,
                Format::Other(other) => other.named,
        },
    )?;
    Ok(bytes)
}

/// The first `n` frames as the WebP encoder receives them: the pixels of
/// each with the time at which it appears.
pub open spec fn timed_frames(frames: Seq<FrameView>, n: int) -> Seq<(Seq<u8>, i32)> {
    Seq::new(n as nat, |i: int| (frames[i].raster.pixels, elapsed_ms(frames, i) as i32))
}

/// What the WebP encoder holds when every frame of the set was added.
pub open spec fn webp_input(frames: Seq<FrameView>) -> WebpState {
    WebpState {
        width: frames[0].raster.width,
        height: frames[0].raster.height,
        settings: WebpSettings {
            loop_count: 0,
            allow_mixed: true,
            alpha_quality: 95,
            quality: 77,
            method: 2,
        },
        frames: timed_frames(frames, frames.len() as int),
    }
}

/// What the WebP encoder holds when the first `n` frames were added.
pub open spec fn webp_state_after(frames: Seq<FrameView>, n: int) -> WebpState {
    WebpState { frames: timed_frames(frames, n), ..webp_input(frames) }
}

/// The error with which the encoder refuses frame `n`, after it took the
/// frames before it.
pub open spec fn webp_frame_error(frames: Seq<FrameView>, n: int) -> Option<webp_animation::Error> {
    webp_add_error(
        webp_state_after(frames, n),
        frames[n].raster.pixels,
        elapsed_ms(frames, n) as i32,
    )
}

/// The first error among the first `n` frames, added in order.
pub open spec fn webp_add_failure(frames: Seq<FrameView>, n: int) -> Option<webp_animation::Error>
    decreases n,
{
    if n <= 0 {
        None
    } else {
        match webp_add_failure(frames, n - 1) {
            Some(e) => Some(e),
            None => webp_frame_error(frames, n - 1),
        }
    }
}

/// Why a frame set does not become a WebP animation, if it does not: the
/// animation lasts too long, or the encoder refuses the size, one of the
/// frames, or to assemble them. The first refusal counts.
pub open spec fn spec_webp_error(frames: Seq<FrameView>) -> Option<EncodeError> {
    let all = frames.len() as int;
    if elapsed_ms(frames, all) > i32::MAX {
        Some(EncodeError::DurationOverflow)
    } else {
        match webp_new_error(
            frames[0].raster.width,
            frames[0].raster.height,
            webp_input(frames).settings,
        ) {
            Some(e) => Some(EncodeError::WebP(e)),
            None => match webp_add_failure(frames, all) {
                Some(e) => Some(EncodeError::WebP(e)),
                None => match webp_finalize_error(
                    webp_input(frames),
                    elapsed_ms(frames, all) as i32,
                ) {
                    Some(e) => Some(EncodeError::WebP(e)),
                    None => None,
                },
            },
        }
    }
}

/// Frame sets that the WebP encoder is known to refuse: the first frame
/// has a side of no pixels; a frame is not of the first frame's size; or a
/// frame before the last is shown for less than a millisecond, so that two
/// frames would appear at the same time.
pub open spec fn webp_refuses(frames: Seq<FrameView>) -> bool {
    ||| frames[0].raster.width == 0
    ||| frames[0].raster.height == 0
    ||| exists|k: int|
        0 <= k < frames.len() && (#[trigger] frames[k]).raster.pixels.len() != rgba_len(
            frames[0].raster.width,
            frames[0].raster.height,
        )
    ||| exists|k: int| 0 <= k < frames.len() - 1 && (#[trigger] frames[k]).delay.spec_whole_ms() == 0
}

/// Encodes a frame set as a WebP animation of the first frame's size.
/// Frame `i` is placed at the sum of the whole-millisecond delays of the
/// frames before it, and the animation ends after the last delay. The
/// encoding succeeds unless the animation lasts too long or the encoder
/// refuses; the error is that of the first refusal.
pub fn encode_webp(images: &Vec<Frame>) -> (r: Result<Vec<u8>, EncodeError>)
    requires
        frame_set_wf(frame_views(images@)),
    ensures
        match r {
            Ok(bytes) => spec_webp_error(frame_views(images@)) is None && bytes@ == webp_assembled(
                webp_input(frame_views(images@)),
                elapsed_ms(frame_views(images@), images@.len() as int) as i32,
            ),
            Err(e) => spec_webp_error(frame_views(images@)) == Some(e),
        },
        webp_refuses(frame_views(images@)) ==> r is Err,
{
    let ghost views = frame_views(images@);
    assert(views.len() == images@.len());
    let schedule = match timestamps(images) {
        Some(schedule) => schedule,
        None => {
            return Err(EncodeError::DurationOverflow);
        },
    };
    assert(views[0] == images@[0]@);
    assert(views[0].wf());
    let held = images[0].raster.pixels.len();
    assert(rgba_len(images[0].raster.width, images[0].raster.height) == held);
    let mut encoder = match webp_encoder(
        images[0].raster.width,
        images[0].raster.height,
        webp_settings(),
    ) {
        Ok(encoder) => encoder,
        Err(e) => {
            return Err(EncodeError::WebP(e));
        },
    };
    assert(timed_frames(views, 0) =~= Seq::empty());
    let mut i: usize = 0;
    while i < images.len()
        invariant
            i <= images@.len(),
            views == frame_views(images@),
            views.len() == images@.len(),
            all_wf(views),
            schedule_matches(schedule, views),
            webp_state(encoder) == webp_state_after(views, i as int),
            webp_new_error(
                views[0].raster.width,
                views[0].raster.height,
                webp_input(views).settings,
            ) is None,
            webp_add_failure(views, i as int) is None,
            elapsed_ms(views, images@.len() as int) <= i32::MAX,
            forall|k: int|
                0 <= k < i ==> (#[trigger] views[k]).raster.pixels.len() == rgba_len(
                    views[0].raster.width,
                    views[0].raster.height,
                ),
            forall|k: int| 0 <= k < i - 1 ==> (#[trigger] views[k]).delay.spec_whole_ms() != 0,
        decreases images@.len() - i,
    {
        assert(views[i as int] == images@[i as int]@);
        proof {
            lemma_elapsed_monotonic(views, i as int, views.len() as int);
            if i > 0 {
                lemma_elapsed_monotonic(views, i - 1, views.len() as int);
                assert(timed_frames(views, i as int).last().1 == elapsed_ms(views, i - 1) as i32);
                assert(views[i - 1].wf());
            }
        }
        match webp_add_frame(&mut encoder, images[i].raster.pixels.as_slice(), schedule.starts[i]) {
            Ok(()) => {},
            Err(e) => {
                assert(webp_frame_error(views, i as int) == Some(e));
                assert(webp_add_failure(views, i + 1) == Some(e));
                assert(webp_add_failure(views, images@.len() as int) == Some(e)) by {
                    lemma_first_failure_stays(views, i + 1, images@.len() as int);
                }
                return Err(EncodeError::WebP(e));
            },
        }
        assert(timed_frames(views, i + 1) =~= timed_frames(views, i as int).push(
            (views[i as int].raster.pixels, schedule.starts@[i as int]),
        ));
        i = i + 1;
    }
    proof {
        lemma_elapsed_monotonic(views, views.len() - 1, views.len() as int);
    }
    match webp_finalize(encoder, schedule.total) {
        Ok(bytes) => Ok(bytes),
        Err(e) => Err(EncodeError::WebP(e)),
    }
}

/// Once a frame was refused, frames after it change nothing.
pub proof fn lemma_first_failure_stays(frames: Seq<FrameView>, n: int, m: int)
    requires
        0 <= n <= m,
        webp_add_failure(frames, n) is Some,
    ensures
        webp_add_failure(frames, m) == webp_add_failure(frames, n),
    decreases m - n,
{
    if n < m {
        lemma_first_failure_stays(frames, n, m - 1);
    }
}

/// Whether the outcome of encoding in a format is a matter of the frames
/// alone. It is for every format but AVIF.
pub open spec fn encoder_is_fixed(format: Format) -> bool {
    !(format is Avif)
}

/// The bytes that an encoding gives where it succeeds, for a format whose
/// encoder is fixed.
pub open spec fn spec_encoded_bytes(frames: Seq<FrameView>, format: Format) -> Seq<u8> {
    match format {
        Format::WebP => webp_assembled(
            webp_input(frames),
            elapsed_ms(frames, frames.len() as int) as i32,
        ),
        Format::Gif => gif_encoded(frames)->Ok_0,
        _ => still_encoded(frames[0].raster, format)->Ok_0,
    }
}

/// Why an encoding fails, if it fails, for a format whose encoder is
/// fixed: for WebP see `spec_webp_error`; for every other format the
/// error of its encoder.
pub open spec fn spec_encode_error(frames: Seq<FrameView>, format: Format) -> Option<EncodeError> {
    match format {
        Format::WebP => spec_webp_error(frames),
        Format::Gif => match gif_encoded(frames) {
            Ok(_) => None,
            Err(e) => Some(EncodeError::Image(e)),
        },
        _ => match still_encoded(frames[0].raster, format) {
            Ok(_) => None,
            Err(e) => Some(EncodeError::Image(e)),
        },
    }
}

/// What the result of an encoding is bound to be: for a format whose
/// encoder is fixed, the bytes or the error that the frames determine;
/// for every format, the media type of the format on success and an error
/// of the image encoders on failure of a format other than WebP.
pub open spec fn is_encoded(
    frames: Seq<FrameView>,
    format: Format,
    r: Result<BytesAndMime, EncodeError>,
) -> bool {
    &&& encoder_is_fixed(format) ==> match r {
        Ok(encoded) => spec_encode_error(frames, format) is None && encoded.0@
            == spec_encoded_bytes(frames, format),
        Err(e) => spec_encode_error(frames, format) == Some(e),
    }
    &&& match r {
        Ok(encoded) => {
            &&& encoded.1@ == format_mime(format)
            &&& format is WebP ==> encoded.1@ == "image/webp"@
            &&& format is Gif ==> encoded.1@ == "image/gif"@
            &&& format is Png ==> encoded.1@ == "image/png"@
        },
        Err(e) => !(format is WebP) ==> e is Image,
    }
}

/// Encodes a frame set in the target format: all frames for WebP and GIF,
/// the first frame alone for every other format.
pub fn encode_image(images: Vec<Frame>, target_format: Format) -> (r: Result<
    BytesAndMime,
    EncodeError,
>)
    requires
        frame_set_wf(frame_views(images@)),
    ensures
        is_encoded(frame_views(images@), target_format, r),
        target_format is WebP && webp_refuses(frame_views(images@)) ==> r is Err,
{
    assert(frame_views(images@)[0] == images@[0]@);
    assert(frame_views(images@)[0].wf());
    assert(frame_views(images@).len() == images@.len());
    let encoded = match target_format {
        Format::WebP => encode_webp(&images),
        Format::Gif => match gif_encode(&images) {
            Ok(bytes) => Ok(bytes),
            Err(e) => Err(EncodeError::Image(e)),
        },
        _ => match still_encode(&images[0].raster, target_format) {
            Ok(bytes) => Ok(bytes),
            Err(e) => Err(EncodeError::Image(e)),
        },
    };
    match encoded {
        Ok(bytes) => Ok(BytesAndMime(bytes, mime_type(target_format))),
        Err(e) => Err(e),
    }
}

} // verus!
