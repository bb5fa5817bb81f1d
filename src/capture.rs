use vstd::prelude::*;
use crate::format::StreamFormat;
use crate::transcode::{conversion_path, has_conversion_path};

verus! {

/// Why a stream format could not be agreed on.
#[derive(Clone, Copy, Debug, PartialEq, Eq, Structural)]
pub enum FormatError {
    /// The requested format has an empty size or a zero interval term.
    InvalidRequest,
    /// No supported format converts to the requested pixel format.
    NoMatch,
    /// The output node does not advertise the format.
    NotAdvertised,
}

/// Why a capture device gave no frame.
#[derive(Clone, Copy, Debug, PartialEq, Eq, Structural)]
pub enum CaptureError {
    /// The device is gone and must be reopened.
    Disconnected,
    /// No frame came within the wait bound.
    Timeout,
    /// The driver failed.
    DriverFault,
}

/// A capture format that can feed a request: well formed, and convertible to
/// the requested pixel format.
pub open spec fn is_candidate(req: StreamFormat, c: StreamFormat) -> bool {
    c.wf() && conversion_path(c.pixel, req.pixel)
}

pub open spec fn abs_diff(a: u32, b: u32) -> int {
    if a >= b { a - b } else { b - a }
}

/// How far a capture format's size lies from the requested one.
pub open spec fn distance(req: StreamFormat, c: StreamFormat) -> int {
    abs_diff(req.width, c.width) + abs_diff(req.height, c.height)
}

pub open spec fn has_candidate(req: StreamFormat, caps: Seq<StreamFormat>) -> bool {
    exists|i: int| 0 <= i < caps.len() && is_candidate(req, #[trigger] caps[i])
}

/// `f` is a supported candidate with no other candidate closer to the request.
pub open spec fn is_closest(req: StreamFormat, caps: Seq<StreamFormat>, f: StreamFormat) -> bool {
    &&& caps.contains(f)
    &&& is_candidate(req, f)
    &&& forall|i: int| 0 <= i < caps.len() && is_candidate(req, #[trigger] caps[i])
        ==> distance(req, f) <= distance(req, caps[i])
}

/// What negotiating `req` against the supported formats `caps` may give: the
/// request itself when it is supported, else a closest candidate.
pub open spec fn negotiation_outcome(
    req: StreamFormat,
    caps: Seq<StreamFormat>,
    r: Result<StreamFormat, FormatError>,
) -> bool {
    if !req.wf() {
        r == Err::<StreamFormat, FormatError>(FormatError::InvalidRequest)
    } else if caps.contains(req) {
        r == Ok::<StreamFormat, FormatError>(req)
    } else if has_candidate(req, caps) {
        r matches Ok(f) && is_closest(req, caps, f)
    } else {
        r == Err::<StreamFormat, FormatError>(FormatError::NoMatch)
    }
}

/// Whether `list` holds `fmt`.
pub fn contains_format(list: &Vec<StreamFormat>, fmt: &StreamFormat) -> (r: bool)
    ensures
        r == list@.contains(*fmt),
{
    let mut i: usize = 0;
    while i < list.len()
        invariant
            i <= list.len(),
            forall|k: int| 0 <= k < i ==> list@[k] != *fmt,
        decreases list.len() - i,
    {
        if list[i] == *fmt {
            assert(list@[i as int] == *fmt);
            return true;
        }
        i = i + 1;
    }
    false
}

fn abs_diff_u32(a: u32, b: u32) -> (r: u32)
    ensures
        r as int == abs_diff(a, b),
{
    if a >= b { a - b } else { b - a }
}

fn distance_of(req: &StreamFormat, c: &StreamFormat) -> (r: u64)
    ensures
        r as int == distance(*req, *c),
{
    abs_diff_u32(req.width, c.width) as u64 + abs_diff_u32(req.height, c.height) as u64
}

/// Picks the capture format for a request from the formats the device
/// supports: the request itself when supported, else the first candidate of
/// least size distance.
pub fn negotiate(requested: &StreamFormat, supported: &Vec<StreamFormat>) -> (r: Result<StreamFormat, FormatError>)
    ensures
        negotiation_outcome(*requested, supported@, r),
{
    if !requested.is_valid() {
        return Err(FormatError::InvalidRequest);
    }
    if contains_format(supported, requested) {
        return Ok(*requested);
    }
    let mut best: Option<StreamFormat> = None;
    let mut best_dist: u64 = 0;
    let mut i: usize = 0;
    while i < supported.len()
        invariant
            i <= supported.len(),
            best is None ==> forall|k: int| 0 <= k < i ==> !is_candidate(*requested, #[trigger] supported@[k]),
            best matches Some(b) ==> {
                &&& supported@.contains(b)
                &&& is_candidate(*requested, b)
                &&& best_dist as int == distance(*requested, b)
                &&& forall|k: int| 0 <= k < i && is_candidate(*requested, #[trigger] supported@[k])
                    ==> distance(*requested, b) <= distance(*requested, supported@[k])
            },
        decreases supported.len() - i,
    {
        let c = supported[i];
        if c.is_valid() && has_conversion_path(c.pixel, requested.pixel) {
            let d = distance_of(requested, &c);
            let better = match best {
                None => true,
                Some(_) => d < best_dist,
            };
            if better {
                assert(supported@[i as int] == c);
                best = Some(c);
                best_dist = d;
            }
        }
        i = i + 1;
    }
    match best {
        Some(b) => Ok(b),
        None => Err(FormatError::NoMatch),
    }
}

} // verus!
