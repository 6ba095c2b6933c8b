//! Decoded pixel data: rasters, delays and frames.

use vstd::prelude::*;

verus! {

/// The number of bytes that an RGBA raster of the given size occupies.
pub open spec fn rgba_len(width: u32, height: u32) -> int {
    4 * (width as int) * (height as int)
}

/// An 8-bit RGBA pixel buffer in row-major order.
pub struct Raster {
    pub width: u32,
    pub height: u32,
    pub pixels: Vec<u8>,
}

/// A raster as a mathematical value.
pub struct RasterView {
    pub width: u32,
    pub height: u32,
    pub pixels: Seq<u8>,
}

impl RasterView {
    /// The buffer holds exactly four bytes for each pixel.
    pub open spec fn wf(&self) -> bool {
        self.pixels.len() == rgba_len(self.width, self.height)
    }
}

impl View for Raster {
    type V = RasterView;

    open spec fn view(&self) -> RasterView {
        RasterView { width: self.width, height: self.height, pixels: self.pixels@ }
    }
}

impl Raster {
    /// The buffer holds exactly four bytes for each pixel.
    pub open spec fn wf(&self) -> bool {
        self@.wf()
    }

    /// A fully transparent black raster.
    pub fn new(width: u32, height: u32) -> (r: Raster)
        requires
            rgba_len(width, height) <= usize::MAX,
        ensures
            r.wf(),
            r.width == width,
            r.height == height,
            forall|i: int| 0 <= i < r.pixels@.len() ==> r.pixels@[i] == 0,
    {
        assert(rgba_len(width, height) == 4 * (width as int * height as int)) by (nonlinear_arith);
        assert(0 <= width as int * height as int) by (nonlinear_arith);
        let area: usize = (width as usize) * (height as usize);
        let total: usize = 4 * area;
        let mut pixels: Vec<u8> = Vec::new();
        let mut i: usize = 0;
        while i < total
            invariant
                i <= total,
                pixels@.len() == i,
                forall|k: int| 0 <= k < i ==> pixels@[k] == 0,
            decreases total - i,
        {
            pixels.push(0u8);
            i = i + 1;
        }
        Raster { width, height, pixels }
    }

    /// Whether the buffer length matches the dimensions.
    pub fn is_consistent(&self) -> (r: bool)
        ensures
            r == self.wf(),
    {
        assert(0 <= (self.width as int) * (self.height as int) <= 0xFFFF_FFFF * 0xFFFF_FFFF)
            by (nonlinear_arith)
            requires
                0 <= self.width <= 0xFFFF_FFFF,
                0 <= self.height <= 0xFFFF_FFFF,
        ;
        assert(rgba_len(self.width, self.height) == 4 * ((self.width as int) * (
        self.height as int))) by (nonlinear_arith);
        let area: u128 = (self.width as u128) * (self.height as u128);
        let need: u128 = 4u128 * area;
        self.pixels.len() as u128 == need
    }
}

/// A display duration held as a fraction of milliseconds.
#[derive(Clone, Copy)]
pub struct Delay {
    pub numer: u32,
    pub denom: u32,
}

impl Delay {
    pub open spec fn wf(&self) -> bool {
        self.denom > 0
    }

    /// The delay in whole milliseconds, the fraction cut off.
    pub open spec fn spec_whole_ms(&self) -> int {
        (self.numer as int) / (self.denom as int)
    }

    /// The delay of a still image.
    pub fn zero() -> (d: Delay)
        ensures
            d.wf(),
            d.numer == 0,
            d.denom == 1,
            d.spec_whole_ms() == 0,
    {
        Delay { numer: 0, denom: 1 }
    }

    pub fn from_numer_denom_ms(numer: u32, denom: u32) -> (d: Delay)
        requires
            denom > 0,
        ensures
            d.wf(),
            d.numer == numer,
            d.denom == denom,
    {
        Delay { numer, denom }
    }

    pub fn whole_ms(&self) -> (ms: u32)
        requires
            self.wf(),
        ensures
            ms == self.spec_whole_ms(),
    {
        self.numer / self.denom
    }
}

/// One raster with the time for which it is shown.
pub struct Frame {
    pub raster: Raster,
    pub delay: Delay,
}

/// A frame as a mathematical value.
pub struct FrameView {
    pub raster: RasterView,
    pub delay: Delay,
}

impl FrameView {
    pub open spec fn wf(&self) -> bool {
        self.raster.wf() && self.delay.wf()
    }
}

impl View for Frame {
    type V = FrameView;

    open spec fn view(&self) -> FrameView {
        FrameView { raster: self.raster@, delay: self.delay }
    }
}

impl Frame {
    pub open spec fn wf(&self) -> bool {
        self@.wf()
    }
}

/// The frames of a vector as mathematical values.
pub open spec fn frame_views(frames: Seq<Frame>) -> Seq<FrameView> {
    frames.map_values(|f: Frame| f@)
}

/// Every frame is well-formed.
pub open spec fn all_wf(frames: Seq<FrameView>) -> bool {
    forall|i: int| 0 <= i < frames.len() ==> (#[trigger] frames[i]).wf()
}

/// A non-empty run of well-formed frames in presentation order.
pub open spec fn frame_set_wf(frames: Seq<FrameView>) -> bool {
    frames.len() >= 1 && all_wf(frames)
}

} // verus!
