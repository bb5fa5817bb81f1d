use vstd::prelude::*;

verus! {

/// FourCC of Motion-JPEG ("MJPG", little endian).
pub const MJPEG_CODE: u32 = 0x4750_4A4D;

/// FourCC of packed YUV 4:2:2 ("YUYV", little endian).
pub const YUYV_CODE: u32 = 0x5659_5559;

/// FourCC of 8-bit luma only ("GREY", little endian).
pub const GREY_CODE: u32 = 0x5945_5247;

/// A pixel format tag, held as its little-endian FourCC code.
#[derive(Clone, Copy, Debug, PartialEq, Eq, Structural)]
pub struct PixelFormat {
    pub code: u32,
}

/// The little-endian value of four bytes.
pub open spec fn fourcc_value(b0: u8, b1: u8, b2: u8, b3: u8) -> int {
    b0 as int + 256 * (b1 as int) + 65536 * (b2 as int) + 16777216 * (b3 as int)
}

impl PixelFormat {
    /// The tag whose FourCC is the four given characters, first one lowest.
    pub fn from_fourcc(b0: u8, b1: u8, b2: u8, b3: u8) -> (r: PixelFormat)
        ensures
            r.code as int == fourcc_value(b0, b1, b2, b3),
    {
        let code: u32 = b0 as u32 + 256 * (b1 as u32) + 65536 * (b2 as u32) + 16777216 * (b3 as u32);
        PixelFormat { code }
    }

    pub fn mjpeg() -> (r: PixelFormat)
        ensures
            r.code == MJPEG_CODE,
    {
        PixelFormat { code: MJPEG_CODE }
    }

    pub fn yuyv() -> (r: PixelFormat)
        ensures
            r.code == YUYV_CODE,
    {
        PixelFormat { code: YUYV_CODE }
    }

    pub fn grey() -> (r: PixelFormat)
        ensures
            r.code == GREY_CODE,
    {
        PixelFormat { code: GREY_CODE }
    }
}

/// A frame interval as the fraction `numerator / denominator` of a second.
#[derive(Clone, Copy, Debug, PartialEq, Eq, Structural)]
pub struct FrameInterval {
    pub numerator: u32,
    pub denominator: u32,
}

/// A negotiated stream format. Renegotiation builds a new value.
#[derive(Clone, Copy, Debug, PartialEq, Eq, Structural)]
pub struct StreamFormat {
    pub pixel: PixelFormat,
    pub width: u32,
    pub height: u32,
    pub interval: FrameInterval,
}

impl StreamFormat {
    /// Non-empty frames and a positive, finite frame interval.
    pub open spec fn wf(&self) -> bool {
        &&& self.width > 0
        &&& self.height > 0
        &&& self.interval.numerator > 0
        &&& self.interval.denominator > 0
    }

    /// The frame interval in units of 100 ns, rounded down.
    pub open spec fn interval_100ns_spec(&self) -> int {
        (self.interval.numerator as int * 10_000_000) / (self.interval.denominator as int)
    }

    /// The per-call wait bound in microseconds: one frame interval, at least 1.
    pub open spec fn frame_timeout_us_spec(&self) -> int {
        let t = (self.interval.numerator as int * 1_000_000) / (self.interval.denominator as int);
        if t < 1 { 1 } else { t }
    }

    pub fn new(pixel: PixelFormat, width: u32, height: u32, numerator: u32, denominator: u32) -> (r: StreamFormat)
        ensures
            r.pixel == pixel,
            r.width == width,
            r.height == height,
            r.interval.numerator == numerator,
            r.interval.denominator == denominator,
    {
        StreamFormat { pixel, width, height, interval: FrameInterval { numerator, denominator } }
    }

    /// The format of `fps` frames per second.
    pub fn at_fps(pixel: PixelFormat, width: u32, height: u32, fps: u32) -> (r: StreamFormat)
        ensures
            r.pixel == pixel,
            r.width == width,
            r.height == height,
            r.interval.numerator == 1,
            r.interval.denominator == fps,
    {
        StreamFormat::new(pixel, width, height, 1, fps)
    }

    pub fn is_valid(&self) -> (r: bool)
        ensures
            r == self.wf(),
    {
        self.width > 0 && self.height > 0 && self.interval.numerator > 0 && self.interval.denominator > 0
    }

    /// The frame interval as a UVC descriptor gives it, in units of 100 ns.
    pub fn interval_100ns(&self) -> (r: u64)
        requires
            self.wf(),
        ensures
            r as int == self.interval_100ns_spec(),
    {
        let n: u64 = self.interval.numerator as u64 * 10_000_000;
        n / (self.interval.denominator as u64)
    }

    /// How long one blocking device call may wait, in microseconds: one frame
    /// interval, so that a control event is seen within that time.
    pub fn frame_timeout_us(&self) -> (r: u64)
        requires
            self.wf(),
        ensures
            r as int == self.frame_timeout_us_spec(),
            r >= 1,
    {
        let n: u64 = self.interval.numerator as u64 * 1_000_000;
        let t: u64 = n / (self.interval.denominator as u64);
        if t < 1 { 1 } else { t }
    }
}

} // verus!
