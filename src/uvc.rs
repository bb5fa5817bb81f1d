use vstd::prelude::*;
use crate::format::{StreamFormat, MJPEG_CODE, YUYV_CODE};
use usb_gadget::function::video::{ColorMatching, Format, UvcFrame};

verus! {

#[verifier::external_type_specification]
pub struct ExColorMatching(ColorMatching);

#[verifier::external_type_specification]
pub struct ExFormat(Format);

#[verifier::external_type_specification]
pub struct ExUvcFrame(UvcFrame);

/// Relies on `UvcFrame::new` of usb-gadget: it stores the size, the format
/// and the intervals as given, with no color matching.
#[verifier::external_body]
fn new_uvc_frame(width: u32, height: u32, format: Format, intervals: Vec<u32>) -> (r: UvcFrame)
    ensures
        r.width == width,
        r.height == height,
        r.format == format,
        r.intervals@ == intervals@,
        r.color_matching is None,
{
    UvcFrame::new(width, height, format, intervals)
}

/// The UVC frame descriptor that advertises a stream format, for the pixel
/// formats a UVC gadget describes natively and for an interval that a
/// descriptor can hold.
pub fn uvc_descriptor(fmt: &StreamFormat) -> (r: Option<UvcFrame>)
    requires
        fmt.wf(),
    ensures
        ((fmt.pixel.code == MJPEG_CODE || fmt.pixel.code == YUYV_CODE) && fmt.interval_100ns_spec()
            <= u32::MAX) <==> r is Some,
        r matches Some(d) ==> {
            &&& d.width == fmt.width
            &&& d.height == fmt.height
            &&& d.intervals@ == seq![fmt.interval_100ns_spec() as u32]
            &&& (fmt.pixel.code == MJPEG_CODE ==> d.format == Format::Mjpeg)
            &&& (fmt.pixel.code == YUYV_CODE ==> d.format == Format::Yuyv)
        },
{
    let format = if fmt.pixel.code == MJPEG_CODE {
        Format::Mjpeg
    } else if fmt.pixel.code == YUYV_CODE {
        Format::Yuyv
    } else {
        return None;
    };
    let interval = fmt.interval_100ns();
    if interval > u32::MAX as u64 {
        return None;
    }
    Some(new_uvc_frame(fmt.width, fmt.height, format, vec![interval as u32]))
}

} // verus!
