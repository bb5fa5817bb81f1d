use vstd::prelude::*;
use crate::format::{PixelFormat, StreamFormat, GREY_CODE, MJPEG_CODE, YUYV_CODE};

verus! {

/// One captured picture. Whoever holds it owns it; each stage hands it on by
/// move.
#[derive(Debug)]
pub struct Frame {
    pub data: Vec<u8>,
    pub pixel: PixelFormat,
    pub width: u32,
    pub height: u32,
    pub timestamp_us: u64,
    pub sequence: u64,
}

/// Whether a payload is well formed for its pixel format and size: packed
/// formats have exactly their size in bytes, a Motion-JPEG picture starts
/// with the start-of-image marker and ends with the end-of-image marker.
/// Payloads of other formats are passed on as they are.
pub open spec fn payload_ok(pixel: PixelFormat, width: u32, height: u32, data: Seq<u8>) -> bool {
    if pixel.code == YUYV_CODE {
        data.len() == 2 * (width as int) * (height as int)
    } else if pixel.code == GREY_CODE {
        data.len() == (width as int) * (height as int)
    } else if pixel.code == MJPEG_CODE {
        &&& data.len() >= 4
        &&& data[0] == 0xFFu8
        &&& data[1] == 0xD8u8
        &&& data[data.len() - 2] == 0xFFu8
        &&& data[data.len() - 1] == 0xD9u8
    } else {
        true
    }
}

/// Whether a frame is of the pixel format and size of a stream format.
pub open spec fn frame_fits(f: &Frame, fmt: StreamFormat) -> bool {
    f.pixel == fmt.pixel && f.width == fmt.width && f.height == fmt.height
}

impl Frame {
    pub open spec fn payload_ok(&self) -> bool {
        payload_ok(self.pixel, self.width, self.height, self.data@)
    }

    pub fn new(data: Vec<u8>, format: &StreamFormat, timestamp_us: u64, sequence: u64) -> (r: Frame)
        ensures
            r.data@ == data@,
            frame_fits(&r, *format),
            r.timestamp_us == timestamp_us,
            r.sequence == sequence,
    {
        Frame { data, pixel: format.pixel, width: format.width, height: format.height, timestamp_us, sequence }
    }

    pub fn fits(&self, format: &StreamFormat) -> (r: bool)
        ensures
            r == frame_fits(self, *format),
    {
        self.pixel == format.pixel && self.width == format.width && self.height == format.height
    }

    pub fn check_payload(&self) -> (r: bool)
        ensures
            r == self.payload_ok(),
    {
        let len: usize = self.data.len();
        if self.pixel.code == YUYV_CODE || self.pixel.code == GREY_CODE {
            let w: u128 = self.width as u128;
            let h: u128 = self.height as u128;
            assert(w * h <= 0xFFFF_FFFFu128 * 0xFFFF_FFFFu128) by (nonlinear_arith)
                requires w <= 0xFFFF_FFFFu128, h <= 0xFFFF_FFFFu128;
            let area: u128 = w * h;
            assert(2 * (area as int) == 2 * (self.width as int) * (self.height as int)) by (nonlinear_arith)
                requires area as int == (w as int) * (h as int), w as int == self.width as int,
                    h as int == self.height as int;
            if self.pixel.code == YUYV_CODE {
                len as u128 == 2 * area
            } else {
                len as u128 == area
            }
        } else if self.pixel.code == MJPEG_CODE {
            len >= 4 && self.data[0] == 0xFFu8 && self.data[1] == 0xD8u8
                && self.data[len - 2] == 0xFFu8 && self.data[len - 1] == 0xD9u8
        } else {
            true
        }
    }
}

} // verus!
