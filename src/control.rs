use vstd::prelude::*;
use crate::format::{FrameInterval, StreamFormat};
use crate::relay::ControlEvent;

verus! {

/// Event type of the gadget's UVC events: the host connected.
pub const UVC_EVENT_CONNECT: u32 = 0x0800_0000;

/// The host disconnected.
pub const UVC_EVENT_DISCONNECT: u32 = 0x0800_0001;

/// The host started the video stream.
pub const UVC_EVENT_STREAMON: u32 = 0x0800_0002;

/// The host stopped the video stream.
pub const UVC_EVENT_STREAMOFF: u32 = 0x0800_0003;

/// The format a commit selects: the advertised entry, with the committed
/// interval (in units of 100 ns) when the host gave one.
pub open spec fn committed_format(entry: StreamFormat, interval_100ns: u32) -> StreamFormat {
    if interval_100ns == 0 {
        entry
    } else {
        StreamFormat {
            interval: FrameInterval { numerator: interval_100ns, denominator: 10_000_000 },
            ..entry
        }
    }
}

/// Translates the gadget's control events into relay inputs. It keeps only
/// the formats it advertised and the one the host last committed.
#[derive(Debug)]
pub struct ControlListener {
    pub advertised: Vec<StreamFormat>,
    pub committed: Option<StreamFormat>,
}

impl ControlListener {
    pub fn new(advertised: Vec<StreamFormat>) -> (r: ControlListener)
        ensures
            r.advertised@ == advertised@,
            r.committed is None,
    {
        ControlListener { advertised, committed: None }
    }

    /// Records a commit of the advertised entry at the 1-based `index`.
    /// An index outside the table leaves the listener as it was.
    pub fn commit(&mut self, index: u32, interval_100ns: u32) -> (r: bool)
        ensures
            final(self).advertised@ == old(self).advertised@,
            r <==> 1 <= index <= old(self).advertised@.len(),
            r ==> final(self).committed == Some(
                committed_format(old(self).advertised@[index - 1], interval_100ns),
            ),
            !r ==> final(self).committed == old(self).committed,
    {
        if index == 0 || index as usize > self.advertised.len() {
            return false;
        }
        let entry = self.advertised[(index - 1) as usize];
        let f = if interval_100ns == 0 {
            entry
        } else {
            StreamFormat {
                interval: FrameInterval { numerator: interval_100ns, denominator: 10_000_000 },
                ..entry
            }
        };
        self.committed = Some(f);
        true
    }

    /// The relay input for a gadget event type, if it has one. A stream-on
    /// before any commit has none.
    pub fn translate(&self, kind: u32) -> (r: Option<ControlEvent>)
        ensures
            kind == UVC_EVENT_STREAMON ==> r == match self.committed {
                Some(f) => Some(ControlEvent::StreamOn(f)),
                None => None::<ControlEvent>,
            },
            kind == UVC_EVENT_STREAMOFF || kind == UVC_EVENT_DISCONNECT ==> r == Some(ControlEvent::StreamOff),
            kind != UVC_EVENT_STREAMON && kind != UVC_EVENT_STREAMOFF && kind != UVC_EVENT_DISCONNECT ==> r is None,
    {
        if kind == UVC_EVENT_STREAMON {
            match self.committed {
                Some(f) => Some(ControlEvent::StreamOn(f)),
                None => None,
            }
        } else if kind == UVC_EVENT_STREAMOFF || kind == UVC_EVENT_DISCONNECT {
            Some(ControlEvent::StreamOff)
        } else {
            None
        }
    }
}

} // verus!
