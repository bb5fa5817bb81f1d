use vstd::prelude::*;
use crate::capture::{contains_format, negotiation_outcome, FormatError};
use crate::format::StreamFormat;
use crate::frame::{frame_fits, Frame};

verus! {

/// Why the output node did not take a frame.
#[derive(Clone, Copy, Debug, PartialEq, Eq, Structural)]
pub enum SinkError {
    /// The host paused the stream; the frame is dropped.
    HostNotStreaming,
    /// The gadget is gone until it is bound again.
    Disconnected,
}

/// Whether an output node that advertises `advertised` can be configured to
/// `fmt`.
pub open spec fn configure_ok(advertised: Seq<StreamFormat>, fmt: StreamFormat) -> bool {
    fmt.wf() && advertised.contains(fmt)
}

/// The formats an output node advertises to the host, and the one it is
/// configured to, if any.
#[derive(Debug)]
pub struct SinkConfig {
    pub advertised: Vec<StreamFormat>,
    pub active: Option<StreamFormat>,
}

impl SinkConfig {
    pub open spec fn wf(&self) -> bool {
        self.active matches Some(a) ==> configure_ok(self.advertised@, a)
    }

    pub fn new(advertised: Vec<StreamFormat>) -> (r: SinkConfig)
        ensures
            r.advertised@ == advertised@,
            r.active is None,
            r.wf(),
    {
        SinkConfig { advertised, active: None }
    }

    /// Makes `fmt` the active format when the node advertises it.
    pub fn configure(&mut self, fmt: StreamFormat) -> (r: Result<(), FormatError>)
        ensures
            final(self).advertised@ == old(self).advertised@,
            r is Ok <==> configure_ok(old(self).advertised@, fmt),
            r is Ok ==> final(self).active == Some(fmt),
            !fmt.wf() ==> r == Err::<(), FormatError>(FormatError::InvalidRequest),
            fmt.wf() && !configure_ok(old(self).advertised@, fmt)
                ==> r == Err::<(), FormatError>(FormatError::NotAdvertised),
            r is Err ==> final(self).active == old(self).active,
            old(self).wf() ==> final(self).wf(),
    {
        if !fmt.is_valid() {
            return Err(FormatError::InvalidRequest);
        }
        if !contains_format(&self.advertised, &fmt) {
            return Err(FormatError::NotAdvertised);
        }
        self.active = Some(fmt);
        Ok(())
    }

    /// Whether a frame matches the active format.
    pub fn accepts(&self, frame: &Frame) -> (r: bool)
        ensures
            r == (self.active matches Some(a) && frame_fits(frame, a)),
    {
        match &self.active {
            Some(a) => frame.fits(a),
            None => false,
        }
    }
}

/// A format that capture negotiation reported is stable: negotiating it
/// again gives it back unchanged, and an output node that advertises every
/// supported capture format accepts it.
pub proof fn lemma_negotiated_format_is_accepted(
    req: StreamFormat,
    caps: Seq<StreamFormat>,
    advertised: Seq<StreamFormat>,
    f: StreamFormat,
)
    requires
        negotiation_outcome(req, caps, Ok(f)),
        forall|i: int| 0 <= i < caps.len() ==> advertised.contains(#[trigger] caps[i]),
    ensures
        negotiation_outcome(f, caps, Ok(f)),
        forall|r: Result<StreamFormat, FormatError>| negotiation_outcome(f, caps, r) ==> r == Ok::<StreamFormat, FormatError>(f),
        configure_ok(advertised, f),
{
    assert(f.wf() && caps.contains(f));
    let i = choose|i: int| 0 <= i < caps.len() && caps[i] == f;
    assert(advertised.contains(caps[i]));
}

} // verus!
