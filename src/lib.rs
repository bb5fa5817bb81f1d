//! Relay core for a USB video gadget: stream formats, frame conversion,
//! format negotiation, control-event translation, and the relay state
//! machine that moves frames from a capture device to the gadget's output
//! node.

mod capture;
mod control;
mod format;
mod frame;
mod relay;
mod sink;
mod transcode;
mod uvc;

pub use capture::{
    abs_diff, contains_format, distance, has_candidate, is_candidate, is_closest, negotiate, negotiation_outcome,
    CaptureError, FormatError,
};
pub use control::{
    committed_format, ControlListener, UVC_EVENT_CONNECT, UVC_EVENT_DISCONNECT, UVC_EVENT_STREAMOFF,
    UVC_EVENT_STREAMON,
};
pub use format::{fourcc_value, FrameInterval, PixelFormat, StreamFormat, GREY_CODE, MJPEG_CODE, YUYV_CODE};
pub use frame::{frame_fits, payload_ok, Frame};
pub use relay::{
    bump, embeds, feeds, forwards, idle_action, idled, is_subsequence, lemma_sink_order, non_decreasing, stopped, Action,
    ControlEvent, Event, Relay, StreamState,
};
pub use sink::{configure_ok, lemma_negotiated_format_is_accepted, SinkConfig, SinkError};
pub use transcode::{
    conversion_path, convert, converted_payload, has_conversion_path, lemma_same_format_identity, luma_of,
    ConversionError,
};
pub use uvc::uvc_descriptor;
