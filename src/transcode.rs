use vstd::prelude::*;
use crate::format::{PixelFormat, GREY_CODE, YUYV_CODE};
use crate::frame::{payload_ok, Frame};

verus! {

#[derive(Clone, Copy, Debug, PartialEq, Eq, Structural)]
pub enum ConversionError {
    /// No conversion path between the two pixel formats.
    Unsupported,
    /// The payload is not well formed for its format; the frame is dropped.
    MalformedInput,
}

/// The conversion paths: every format to itself, and packed YUV 4:2:2 to its
/// luma plane.
pub open spec fn conversion_path(src: PixelFormat, dst: PixelFormat) -> bool {
    src == dst || (src.code == YUYV_CODE && dst.code == GREY_CODE)
}

/// The luma bytes of a packed YUV 4:2:2 payload: every even byte.
pub open spec fn luma_of(data: Seq<u8>) -> Seq<u8> {
    Seq::new(data.len() / 2, |i: int| data[2 * i])
}

/// The payload that converting `data` from `src` to `dst` yields, on a path.
pub open spec fn converted_payload(src: PixelFormat, dst: PixelFormat, data: Seq<u8>) -> Seq<u8> {
    if src == dst {
        data
    } else {
        luma_of(data)
    }
}

pub fn has_conversion_path(src: PixelFormat, dst: PixelFormat) -> (r: bool)
    ensures
        r == conversion_path(src, dst),
{
    src == dst || (src.code == YUYV_CODE && dst.code == GREY_CODE)
}

fn extract_luma(data: &Vec<u8>) -> (r: Vec<u8>)
    ensures
        r@ == luma_of(data@),
{
    let n: usize = data.len() / 2;
    let mut out: Vec<u8> = Vec::with_capacity(n);
    let mut i: usize = 0;
    while i < n
        invariant
            n == data.len() / 2,
            i <= n,
            out@.len() == i,
            forall|k: int| 0 <= k < i ==> out@[k] == data@[2 * k],
        decreases n - i,
    {
        out.push(data[2 * i]);
        i = i + 1;
    }
    assert(out@ =~= luma_of(data@));
    out
}

/// Converts a frame to the pixel format `target`. Converting to the frame's
/// own format hands the frame back untouched, without a copy.
pub fn convert(frame: Frame, target: PixelFormat) -> (r: Result<Frame, ConversionError>)
    ensures
        !conversion_path(frame.pixel, target) ==> r == Err::<Frame, ConversionError>(ConversionError::Unsupported),
        conversion_path(frame.pixel, target) && !frame.payload_ok()
            ==> r == Err::<Frame, ConversionError>(ConversionError::MalformedInput),
        conversion_path(frame.pixel, target) && frame.payload_ok() ==> r is Ok,
        r matches Ok(g) ==> {
            &&& g.data@ == converted_payload(frame.pixel, target, frame.data@)
            &&& g.pixel == target
            &&& g.width == frame.width
            &&& g.height == frame.height
            &&& g.timestamp_us == frame.timestamp_us
            &&& g.sequence == frame.sequence
            &&& g.payload_ok()
        },
{
    if !has_conversion_path(frame.pixel, target) {
        return Err(ConversionError::Unsupported);
    }
    if !frame.check_payload() {
        return Err(ConversionError::MalformedInput);
    }
    if frame.pixel == target {
        Ok(frame)
    } else {
        let luma = extract_luma(&frame.data);
        assert(luma@.len() == (frame.width as int) * (frame.height as int)) by (nonlinear_arith)
            requires
                luma@.len() == frame.data@.len() / 2,
                frame.data@.len() == 2 * (frame.width as int) * (frame.height as int);
        Ok(Frame {
            data: luma,
            pixel: target,
            width: frame.width,
            height: frame.height,
            timestamp_us: frame.timestamp_us,
            sequence: frame.sequence,
        })
    }
}

/// Converting a payload to its own format gives back the same bytes.
pub proof fn lemma_same_format_identity(pixel: PixelFormat, data: Seq<u8>)
    ensures
        conversion_path(pixel, pixel),
        converted_payload(pixel, pixel, data) == data,
{
}

} // verus!
