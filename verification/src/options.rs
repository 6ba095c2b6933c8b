//! What a request asks for: the resize policy and the target format.

use vstd::prelude::*;
use vstd::string::StringSliceAdditionalSpecFns;
use vstd::utf8::encode_utf8_decode_utf8;
use vstd::utf8::valid_utf8;
use crate::format::extension_format;
use crate::format::from_extension;
use crate::format::lemma_webp_extension;
use crate::format::text_of;
use crate::format::webp_extension;
use crate::format::Format;
use crate::raster::all_wf;
use crate::raster::frame_set_wf;
use crate::raster::frame_views;
use crate::raster::Frame;
use crate::raster::FrameView;
use crate::resize::all_can_cover;
use crate::resize::all_can_fit;
use crate::resize::can_cover;
use crate::resize::can_fit;
use crate::resize::can_shrink_inside;
use crate::resize::can_shrink_outside;
use crate::resize::shrink_inside_vec;
use crate::resize::shrink_outside_vec;
use crate::resize::spec_shrink_inside_vec;
use crate::resize::spec_shrink_outside_vec;
use crate::text::extension;
use crate::text::extension_of;

verus! {

/// The side of the square that an emoji covers.
pub const EMOJI_SIZE: u32 = 128;

/// The side of the square that an avatar covers.
pub const AVATAR_SIZE: u32 = 320;

pub const STATIC_WIDTH: u32 = 498;

pub const STATIC_HEIGHT: u32 = 422;

pub const PREVIEW_SIZE: u32 = 200;

/// The flags of a request and the format it wants.
#[derive(Clone, Copy)]
pub struct ProxyOptions {
    pub emoji: bool,
    pub avatar: bool,
    pub still: bool,
    pub preview: bool,
    pub badge: bool,
    pub format: Format,
}

/// What is done to the frames before they are encoded.
#[derive(Clone, Copy, Debug, PartialEq, Eq, Structural)]
pub enum Transform {
    /// Cover a square of this side; keep the first frame only if asked.
    Cover { size: u32, first_only: bool },
    /// Fit within a box.
    Fit { width: u32, height: u32 },
    /// The badge rendering, which does not exist.
    NotImplemented,
    /// Leave the frames as they are.
    Keep,
}

/// The first rule that applies decides: emoji or avatar, then static, then
/// preview, then badge.
pub open spec fn spec_select_transform(options: ProxyOptions) -> Transform {
    if options.emoji || options.avatar {
        Transform::Cover {
            size: if options.emoji {
                EMOJI_SIZE
            } else {
                AVATAR_SIZE
            },
            first_only: options.still,
        }
    } else if options.still {
        Transform::Fit { width: STATIC_WIDTH, height: STATIC_HEIGHT }
    } else if options.preview {
        Transform::Fit { width: PREVIEW_SIZE, height: PREVIEW_SIZE }
    } else if options.badge {
        Transform::NotImplemented
    } else {
        Transform::Keep
    }
}

pub fn select_transform(options: &ProxyOptions) -> (t: Transform)
    ensures
        t == spec_select_transform(*options),
{
    if options.emoji || options.avatar {
        let size = if options.emoji {
            EMOJI_SIZE
        } else {
            AVATAR_SIZE
        };
        Transform::Cover { size, first_only: options.still }
    } else if options.still {
        Transform::Fit { width: STATIC_WIDTH, height: STATIC_HEIGHT }
    } else if options.preview {
        Transform::Fit { width: PREVIEW_SIZE, height: PREVIEW_SIZE }
    } else if options.badge {
        Transform::NotImplemented
    } else {
        Transform::Keep
    }
}

/// What a transform makes of a frame set.
pub open spec fn spec_apply_transform(frames: Seq<FrameView>, transform: Transform) -> Seq<
    FrameView,
> {
    match transform {
        Transform::Cover { size, first_only } => {
            let covered = spec_shrink_outside_vec(frames, size);
            if first_only {
                covered.subrange(0, 1)
            } else {
                covered
            }
        },
        Transform::Fit { width, height } => spec_shrink_inside_vec(frames, width, height),
        _ => frames,
    }
}

/// Whether a transform can be applied: every frame is one that the
/// resizing it asks for can sample.
pub open spec fn spec_can_apply(frames: Seq<FrameView>, transform: Transform) -> bool {
    match transform {
        Transform::Cover { size, first_only } => all_can_cover(frames, size),
        Transform::Fit { width, height } => all_can_fit(frames, width, height),
        _ => true,
    }
}

/// Whether `apply_transform` takes these frames.
pub fn can_apply(frames: &Vec<Frame>, transform: Transform) -> (r: bool)
    ensures
        r == spec_can_apply(frame_views(frames@), transform),
{
    let ghost views = frame_views(frames@);
    let mut i: usize = 0;
    while i < frames.len()
        invariant
            i <= frames@.len(),
            views == frame_views(frames@),
            views.len() == frames@.len(),
            spec_can_apply(views.subrange(0, i as int), transform),
        decreases frames@.len() - i,
    {
        assert(views[i as int] == frames@[i as int]@);
        let fine = match transform {
            Transform::Cover { size, first_only } => can_shrink_outside(&frames[i].raster, size),
            Transform::Fit { width, height } => can_shrink_inside(&frames[i].raster, width, height),
            _ => true,
        };
        if !fine {
            return false;
        }
        assert forall|k: int| 0 <= k < i + 1 implies views.subrange(0, i + 1)[k] == (if k < i {
            views.subrange(0, i as int)[k]
        } else {
            views[i as int]
        }) by {}
        assert(spec_can_apply(views.subrange(0, i + 1), transform)) by {
            let next = views.subrange(0, i + 1);
            let done = views.subrange(0, i as int);
            match transform {
                Transform::Cover { size, first_only } => {
                    assert forall|k: int| 0 <= k < next.len() implies can_cover(
                        (#[trigger] next[k]).raster.width,
                        next[k].raster.height,
                        size,
                    ) by {
                        if k < i {
                            assert(next[k] == done[k]);
                        }
                    }
                },
                Transform::Fit { width, height } => {
                    assert forall|k: int| 0 <= k < next.len() implies can_fit(
                        (#[trigger] next[k]).raster.width,
                        next[k].raster.height,
                        width,
                        height,
                    ) by {
                        if k < i {
                            assert(next[k] == done[k]);
                        }
                    }
                },
                _ => {},
            }
        }
        i = i + 1;
    }
    assert(views.subrange(0, frames@.len() as int) =~= views);
    true
}

/// Resizes every frame as the transform says. The number of frames stays,
/// but for a cover that keeps the first frame only.
pub fn apply_transform(frames: Vec<Frame>, transform: Transform) -> (r: Vec<Frame>)
    requires
        frame_set_wf(frame_views(frames@)),
        spec_can_apply(frame_views(frames@), transform),
    ensures
        frame_set_wf(frame_views(r@)),
        frame_views(r@) == spec_apply_transform(frame_views(frames@), transform),
        r@.len() == (if transform matches Transform::Cover { first_only: true, .. } {
            1
        } else {
            frames@.len()
        }),
{
    match transform {
        Transform::Cover { size, first_only } => {
            let mut covered = shrink_outside_vec(frames, size);
            assert(frame_views(covered@).len() == covered@.len());
            if first_only {
                let ghost all = frame_views(covered@);
                covered.truncate(1);
                assert(frame_views(covered@) =~= all.subrange(0, 1));
            }
            covered
        },
        Transform::Fit { width, height } => {
            let fitted = shrink_inside_vec(frames, width, height);
            assert(frame_views(fitted@).len() == fitted@.len());
            fitted
        },
        _ => frames,
    }
}

/// The format that a request path asks for: that of its extension, and
/// WebP where the path is a bare separator, has no extension, or has one
/// that is no text or names no format.
pub open spec fn spec_target_format(path: Seq<u8>) -> Format {
    if path.len() > 1 {
        match extension(path) {
            Some(e) => if valid_utf8(e) {
                match extension_format(e) {
                    Some(format) => format,
                    None => Format::WebP,
                }
            } else {
                Format::WebP
            },
            None => Format::WebP,
        }
    } else {
        Format::WebP
    }
}

pub fn target_format(path: &str) -> (format: Format)
    ensures
        format == spec_target_format(path.spec_bytes()),
        path.spec_bytes().len() <= 1 || extension(path.spec_bytes()) is None || extension(
            path.spec_bytes(),
        ) == Some(webp_extension()) ==> format is WebP,
{
    let bytes = path.as_bytes();
    if bytes.len() > 1 {
        match extension_of(bytes) {
            Some(e) => match text_of(e.as_slice()) {
                Some(text) => {
                    proof {
                        lemma_webp_extension();
                        encode_utf8_decode_utf8(text@);
                        encode_utf8_decode_utf8("webp"@);
                    }
                    match from_extension(text) {
                        Some(format) => format,
                        None => Format::WebP,
                    }
                },
                None => Format::WebP,
            },
            None => Format::WebP,
        }
    } else {
        Format::WebP
    }
}

/// Whether the list holds this name.
pub open spec fn has_name(names: Seq<String>, name: Seq<char>) -> bool {
    exists|i: int| 0 <= i < names.len() && (#[trigger] names[i])@ == name
}

pub fn contains_name(names: &Vec<String>, name: &str) -> (r: bool)
    ensures
        r == has_name(names@, name@),
{
    let wanted = name.to_owned();
    let mut i: usize = 0;
    while i < names.len()
        invariant
            i <= names@.len(),
            wanted@ == name@,
            forall|k: int| 0 <= k < i ==> (#[trigger] names@[k])@ != name@,
        decreases names@.len() - i,
    {
        if names[i] == wanted {
            return true;
        }
        i = i + 1;
    }
    false
}

/// Reads the options of a request: a flag is set where the query names it,
/// whatever its value, and the format comes from the path.
pub fn parse_options(path: &str, names: &Vec<String>) -> (options: ProxyOptions)
    ensures
        options.emoji == has_name(names@, "emoji"@),
        options.avatar == has_name(names@, "avatar"@),
        options.still == has_name(names@, "static"@),
        options.preview == has_name(names@, "preview"@),
        options.badge == has_name(names@, "badge"@),
        options.format == spec_target_format(path.spec_bytes()),
        path.spec_bytes().len() <= 1 || extension(path.spec_bytes()) is None || extension(
            path.spec_bytes(),
        ) == Some(webp_extension()) ==> options.format is WebP,
{
    ProxyOptions {
        emoji: contains_name(names, "emoji"),
        avatar: contains_name(names, "avatar"),
        still: contains_name(names, "static"),
        preview: contains_name(names, "preview"),
        badge: contains_name(names, "badge"),
        format: target_format(path),
    }
}

} // verus!
