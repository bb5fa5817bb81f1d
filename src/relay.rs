use vstd::prelude::*;
use crate::capture::{CaptureError, FormatError};
use crate::format::StreamFormat;
use crate::frame::{frame_fits, Frame};
use crate::sink::SinkError;
use crate::transcode::{conversion_path, convert, converted_payload, has_conversion_path};

verus! {

#[derive(Clone, Copy, Debug, PartialEq, Eq, Structural)]
pub enum StreamState {
    Idle,
    Negotiating,
    Streaming,
    Stopping,
}

/// What the control channel reports from the host or the process.
#[derive(Clone, Copy, Debug, PartialEq, Eq, Structural)]
pub enum ControlEvent {
    /// The host starts streaming in the given format.
    StreamOn(StreamFormat),
    /// The host stops streaming.
    StreamOff,
    /// The process is shutting down.
    Shutdown,
}

/// An input to the relay: a control event, or the outcome of the action that
/// the relay asked for last.
#[derive(Debug)]
pub enum Event {
    Control(ControlEvent),
    CaptureNegotiated(Result<StreamFormat, FormatError>),
    SinkConfigured(Result<(), FormatError>),
    Captured(Result<Frame, CaptureError>),
    Enqueued(Result<(), SinkError>),
    Released,
}

/// What the relay asks its driver to do next.
#[derive(Debug)]
pub enum Action {
    /// Wait for the next control event.
    WaitControl,
    /// Set the capture device to the closest format to this one.
    NegotiateCapture(StreamFormat),
    /// Configure the output node to this format.
    ConfigureSink(StreamFormat),
    /// Take the next frame from the capture device, waiting at most one frame
    /// interval.
    Dequeue,
    /// Hand this frame to the output node.
    Enqueue(Frame),
    /// Drop any frame in hand and release the device handles.
    Release,
    /// Report a failed negotiation, then wait for the next control event.
    ReportFormatError(FormatError),
    /// Everything is released; the process may exit.
    Finish,
}

/// A capture format that can feed an output format: a conversion path and the
/// same frame size.
pub open spec fn feeds(cap: StreamFormat, out: StreamFormat) -> bool {
    conversion_path(cap.pixel, out.pixel) && cap.width == out.width && cap.height == out.height
}

/// A counter that stops at its largest value.
pub open spec fn bump(n: u64) -> u64 {
    if n < u64::MAX { (n + 1) as u64 } else { n }
}

pub open spec fn non_decreasing(s: Seq<u64>) -> bool {
    forall|j: int, k: int| 0 <= j < k < s.len() ==> s[j] <= s[k]
}

/// `picks` gives, for each element of `sub`, its position in `full`, and the
/// positions rise strictly.
pub open spec fn embeds(sub: Seq<u64>, full: Seq<u64>, picks: Seq<int>) -> bool {
    &&& picks.len() == sub.len()
    &&& forall|j: int| 0 <= j < picks.len() ==> 0 <= #[trigger] picks[j] < full.len() && full[picks[j]] == sub[j]
    &&& forall|j: int, k: int| 0 <= j < k < picks.len() ==> picks[j] < picks[k]
}

/// `sub` is `full` with some elements left out, the rest in their order.
pub open spec fn is_subsequence(sub: Seq<u64>, full: Seq<u64>) -> bool {
    exists|picks: Seq<int>| embeds(sub, full, picks)
}

/// The action of an idle relay.
pub open spec fn idle_action(shutting_down: bool, a: &Action) -> bool {
    if shutting_down { a is Finish } else { a is WaitControl }
}

/// Whether the relay forwards a captured frame to an output of format `out`:
/// a well formed payload that converts to `out`, of its size, not older than
/// the last frame sent.
pub open spec fn forwards(last_sent: Option<u64>, out: StreamFormat, f: &Frame) -> bool {
    &&& conversion_path(f.pixel, out.pixel)
    &&& f.payload_ok()
    &&& f.width == out.width
    &&& f.height == out.height
    &&& (last_sent matches Some(l) ==> l <= f.sequence)
}

/// The relay with the state set to `Stopping` and no frame pending.
pub open spec fn stopped(r: Relay) -> Relay {
    Relay { state: StreamState::Stopping, awaiting_enqueue: false, ..r }
}

/// The relay with the state set to `Idle` and the session's formats cleared.
pub open spec fn idled(r: Relay) -> Relay {
    Relay { state: StreamState::Idle, requested: None, capture: None, awaiting_enqueue: false, ..r }
}

/// The relay between a capture device and the gadget's output node. It holds
/// the stream state and the session's counters; the driver performs each
/// action it returns and feeds back the outcome.
pub struct Relay {
    pub state: StreamState,
    /// The format the host asked for; the output node runs in it.
    pub requested: Option<StreamFormat>,
    /// The format the capture device agreed to.
    pub capture: Option<StreamFormat>,
    /// A frame was handed to the output node and its outcome is pending.
    pub awaiting_enqueue: bool,
    pub last_sent: Option<u64>,
    pub forwarded: u64,
    pub dropped: u64,
    pub shutting_down: bool,
    /// Sequence numbers captured in this session.
    pub produced: Ghost<Seq<u64>>,
    /// Sequence numbers handed to the output node in this session.
    pub sent: Ghost<Seq<u64>>,
    pub picks: Ghost<Seq<int>>,
}

impl Relay {
    pub open spec fn wf(&self) -> bool {
        &&& (self.state == StreamState::Negotiating ==> {
            &&& self.requested is Some
            &&& (self.capture matches Some(c) ==> feeds(c, self.requested->Some_0))
        })
        &&& (self.state == StreamState::Streaming ==> {
            &&& self.requested matches Some(o)
            &&& self.capture matches Some(c)
            &&& feeds(c, o)
        })
        &&& (self.awaiting_enqueue ==> self.state == StreamState::Streaming)
        &&& embeds(self.sent@, self.produced@, self.picks@)
        &&& non_decreasing(self.sent@)
        &&& (self.last_sent is None <==> self.sent@.len() == 0)
        &&& (self.last_sent matches Some(l) ==> self.sent@.last() == l)
    }

    pub fn new() -> (r: Relay)
        ensures
            r.wf(),
            r.state == StreamState::Idle,
            r.requested is None,
            r.capture is None,
            !r.shutting_down,
            r.forwarded == 0,
            r.dropped == 0,
            r.sent@.len() == 0,
    {
        Relay {
            state: StreamState::Idle,
            requested: None,
            capture: None,
            awaiting_enqueue: false,
            last_sent: None,
            forwarded: 0,
            dropped: 0,
            shutting_down: false,
            produced: Ghost(Seq::empty()),
            sent: Ghost(Seq::empty()),
            picks: Ghost(Seq::empty()),
        }
    }

    /// Moves to `Stopping`; nothing else changes but the pending enqueue.
    fn stop(&mut self) -> (a: Action)
        requires
            old(self).wf(),
        ensures
            *final(self) == stopped(*old(self)),
            final(self).wf(),
            a is Release,
    {
        self.state = StreamState::Stopping;
        self.awaiting_enqueue = false;
        Action::Release
    }

    /// Moves to `Idle` and forgets the formats.
    fn go_idle(&mut self) -> (a: Action)
        requires
            old(self).wf(),
        ensures
            *final(self) == idled(*old(self)),
            final(self).wf(),
            idle_action(final(self).shutting_down, &a),
    {
        self.state = StreamState::Idle;
        self.requested = None;
        self.capture = None;
        self.awaiting_enqueue = false;
        if self.shutting_down {
            Action::Finish
        } else {
            Action::WaitControl
        }
    }

    /// An event that answers no request of the current state: a fault.
    fn on_unexpected(&mut self) -> (a: Action)
        requires
            old(self).wf(),
        ensures
            final(self).wf(),
            old(self).state == StreamState::Idle ==> *final(self) == *old(self) && idle_action(
                old(self).shutting_down,
                &a,
            ),
            old(self).state != StreamState::Idle ==> *final(self) == stopped(*old(self)) && a is Release,
    {
        match self.state {
            StreamState::Idle => {
                if self.shutting_down {
                    Action::Finish
                } else {
                    Action::WaitControl
                }
            },
            _ => self.stop(),
        }
    }

    /// Starts a new session for the host's format.
    fn begin_session(&mut self, f: StreamFormat) -> (a: Action)
        requires
            old(self).wf(),
        ensures
            final(self).wf(),
            final(self).state == StreamState::Negotiating,
            final(self).requested == Some(f),
            final(self).capture is None,
            !final(self).awaiting_enqueue,
            final(self).last_sent is None,
            final(self).forwarded == 0,
            final(self).dropped == 0,
            final(self).shutting_down == old(self).shutting_down,
            final(self).produced@.len() == 0,
            final(self).sent@.len() == 0,
            a == Action::NegotiateCapture(f),
    {
        self.state = StreamState::Negotiating;
        self.requested = Some(f);
        self.capture = None;
        self.awaiting_enqueue = false;
        self.last_sent = None;
        self.forwarded = 0;
        self.dropped = 0;
        self.produced = Ghost(Seq::empty());
        self.sent = Ghost(Seq::empty());
        self.picks = Ghost(Seq::empty());
        Action::NegotiateCapture(f)
    }
}


fn bump_u64(n: u64) -> (r: u64)
    ensures
        r == bump(n),
{
    if n < u64::MAX {
        n + 1
    } else {
        n
    }
}

impl Relay {
    /// Handles a captured frame while streaming: converts it to the output
    /// format and hands it on, or drops and counts it.
    fn on_frame(&mut self, frame: Frame) -> (a: Action)
        requires
            old(self).wf(),
            old(self).state == StreamState::Streaming,
            !old(self).awaiting_enqueue,
        ensures
            final(self).wf(),
            final(self).state == StreamState::Streaming,
            final(self).requested == old(self).requested,
            final(self).capture == old(self).capture,
            final(self).shutting_down == old(self).shutting_down,
            final(self).forwarded == old(self).forwarded,
            final(self).produced@ == old(self).produced@.push(frame.sequence),
            forwards(old(self).last_sent, old(self).requested->Some_0, &frame) ==> {
                &&& a matches Action::Enqueue(g) && g.sequence == frame.sequence && g.timestamp_us
                    == frame.timestamp_us && g.data@ == converted_payload(
                    frame.pixel,
                    old(self).requested->Some_0.pixel,
                    frame.data@,
                ) && frame_fits(&g, old(self).requested->Some_0)
                &&& final(self).sent@ == old(self).sent@.push(frame.sequence)
                &&& final(self).dropped == old(self).dropped
                &&& final(self).awaiting_enqueue
                &&& final(self).last_sent == Some(frame.sequence)
            },
            !forwards(old(self).last_sent, old(self).requested->Some_0, &frame) ==> {
                &&& a is Dequeue
                &&& final(self).sent@ == old(self).sent@
                &&& final(self).dropped == bump(old(self).dropped)
                &&& !final(self).awaiting_enqueue
                &&& final(self).last_sent == old(self).last_sent
            },
    {
        let out = self.requested.unwrap();
        let seq: u64 = frame.sequence;
        self.produced = Ghost(self.produced@.push(seq));
        let in_order = match self.last_sent {
            Some(l) => l <= seq,
            None => true,
        };
        if frame.width != out.width || frame.height != out.height || !in_order {
            self.dropped = bump_u64(self.dropped);
            return Action::Dequeue;
        }
        match convert(frame, out.pixel) {
            Ok(g) => {
                let ghost old_sent = self.sent@;
                let ghost old_picks = self.picks@;
                let ghost pos: int = self.produced@.len() - 1;
                self.sent = Ghost(self.sent@.push(seq));
                self.picks = Ghost(self.picks@.push(pos));
                self.last_sent = Some(seq);
                self.awaiting_enqueue = true;
                proof {
                    assert forall|j: int| 0 <= j < self.picks@.len() implies 0 <= #[trigger] self.picks@[j]
                        < self.produced@.len() && self.produced@[self.picks@[j]] == self.sent@[j] by {
                        if j < old_picks.len() {
                            assert(self.picks@[j] == old_picks[j]);
                        }
                    }
                    assert(self.sent@.last() == seq);
                }
                Action::Enqueue(g)
            },
            Err(_) => {
                self.dropped = bump_u64(self.dropped);
                Action::Dequeue
            },
        }
    }
}

impl Relay {
    /// Takes one event and returns the next action.
    ///
    /// A stream-on outside `Stopping` starts a new session, also while
    /// streaming (renegotiation); during `Stopping` it is ignored. An event
    /// that answers no pending request is a fault: outside `Idle` it forces
    /// `Stopping`.
    pub fn step(&mut self, event: Event) -> (a: Action)
        requires
            old(self).wf(),
        ensures
            final(self).wf(),
            a matches Action::Enqueue(g) ==> {
                &&& final(self).state == StreamState::Streaming
                &&& final(self).requested matches Some(o)
                &&& frame_fits(&g, o)
            },
            a is Dequeue ==> final(self).state == StreamState::Streaming,
            final(self).state == StreamState::Stopping ==> a is Release,
            event matches Event::Control(ControlEvent::StreamOn(f)) ==> if old(self).state
                == StreamState::Stopping {
                *final(self) == *old(self)
            } else {
                &&& final(self).state == StreamState::Negotiating
                &&& final(self).requested == Some(f)
                &&& final(self).capture is None
                &&& !final(self).awaiting_enqueue
                &&& final(self).last_sent is None
                &&& final(self).forwarded == 0
                &&& final(self).dropped == 0
                &&& final(self).shutting_down == old(self).shutting_down
                &&& final(self).produced@.len() == 0
                &&& final(self).sent@.len() == 0
                &&& a == Action::NegotiateCapture(f)
            },
            event matches Event::Control(ControlEvent::StreamOff) ==> if old(self).state == StreamState::Idle {
                *final(self) == *old(self) && idle_action(old(self).shutting_down, &a)
            } else {
                *final(self) == stopped(*old(self))
            },
            event matches Event::Control(ControlEvent::Shutdown) ==> *final(self) == (Relay {
                shutting_down: true,
                ..stopped(*old(self))
            }),
            event is Released ==> if old(self).state == StreamState::Stopping || old(self).state
                == StreamState::Idle {
                *final(self) == idled(*old(self)) && idle_action(old(self).shutting_down, &a)
            } else {
                *final(self) == stopped(*old(self))
            },
            event matches Event::CaptureNegotiated(r) ==> (old(self).state == StreamState::Negotiating
                && old(self).capture is None ==> match r {
                Ok(c) => if feeds(c, old(self).requested->Some_0) {
                    &&& *final(self) == (Relay { capture: Some(c), ..*old(self) })
                    &&& a == Action::ConfigureSink(old(self).requested->Some_0)
                } else {
                    *final(self) == idled(*old(self)) && a == Action::ReportFormatError(FormatError::NoMatch)
                },
                Err(e) => *final(self) == idled(*old(self)) && a == Action::ReportFormatError(e),
            }),
            event matches Event::SinkConfigured(r) ==> (old(self).state == StreamState::Negotiating
                && old(self).capture is Some ==> match r {
                Ok(_) => *final(self) == (Relay { state: StreamState::Streaming, ..*old(self) }) && a is Dequeue,
                Err(e) => *final(self) == idled(*old(self)) && a == Action::ReportFormatError(e),
            }),
            event matches Event::Captured(Ok(fr)) ==> (old(self).state == StreamState::Streaming
                && !old(self).awaiting_enqueue ==> {
                &&& final(self).state == StreamState::Streaming
                &&& final(self).requested == old(self).requested
                &&& final(self).capture == old(self).capture
                &&& final(self).shutting_down == old(self).shutting_down
                &&& final(self).produced@ == old(self).produced@.push(fr.sequence)
                &&& final(self).forwarded == old(self).forwarded
                &&& if forwards(old(self).last_sent, old(self).requested->Some_0, &fr) {
                    &&& a matches Action::Enqueue(g) && g.sequence == fr.sequence && g.timestamp_us
                        == fr.timestamp_us && g.data@ == converted_payload(
                        fr.pixel,
                        old(self).requested->Some_0.pixel,
                        fr.data@,
                    )
                    &&& final(self).awaiting_enqueue
                    &&& final(self).last_sent == Some(fr.sequence)
                    &&& final(self).sent@ == old(self).sent@.push(fr.sequence)
                    &&& final(self).dropped == old(self).dropped
                } else {
                    &&& a is Dequeue
                    &&& !final(self).awaiting_enqueue
                    &&& final(self).last_sent == old(self).last_sent
                    &&& final(self).sent@ == old(self).sent@
                    &&& final(self).dropped == bump(old(self).dropped)
                }
            }),
            event matches Event::Captured(Err(e)) ==> (old(self).state == StreamState::Streaming
                && !old(self).awaiting_enqueue ==> if e == CaptureError::Timeout {
                *final(self) == *old(self) && a is Dequeue
            } else {
                *final(self) == stopped(*old(self))
            }),
            event matches Event::Enqueued(r) ==> (old(self).state == StreamState::Streaming
                && old(self).awaiting_enqueue ==> match r {
                Ok(_) => *final(self) == (Relay {
                    awaiting_enqueue: false,
                    forwarded: bump(old(self).forwarded),
                    ..*old(self)
                }) && a is Dequeue,
                Err(SinkError::HostNotStreaming) => *final(self) == (Relay {
                    awaiting_enqueue: false,
                    dropped: bump(old(self).dropped),
                    ..*old(self)
                }) && a is Dequeue,
                Err(SinkError::Disconnected) => *final(self) == stopped(*old(self)),
            }),
            old(self).state == StreamState::Stopping && !(event is Released) && !(event matches Event::Control(
                ControlEvent::Shutdown,
            )) ==> *final(self) == *old(self),
    {
        match event {
            Event::Control(c) => match c {
                ControlEvent::StreamOn(f) => match self.state {
                    StreamState::Stopping => Action::Release,
                    _ => self.begin_session(f),
                },
                ControlEvent::StreamOff => match self.state {
                    StreamState::Idle => self.on_unexpected(),
                    _ => self.stop(),
                },
                ControlEvent::Shutdown => {
                    self.shutting_down = true;
                    self.stop()
                },
            },
            Event::Released => match self.state {
                StreamState::Stopping | StreamState::Idle => self.go_idle(),
                _ => self.stop(),
            },
            Event::CaptureNegotiated(r) => {
                if self.state == StreamState::Negotiating && self.capture.is_none() {
                    let out = self.requested.unwrap();
                    match r {
                        Ok(c) => {
                            if has_conversion_path(c.pixel, out.pixel) && c.width == out.width && c.height
                                == out.height {
                                self.capture = Some(c);
                                Action::ConfigureSink(out)
                            } else {
                                let _ = self.go_idle();
                                Action::ReportFormatError(FormatError::NoMatch)
                            }
                        },
                        Err(e) => {
                            let _ = self.go_idle();
                            Action::ReportFormatError(e)
                        },
                    }
                } else {
                    self.on_unexpected()
                }
            },
            Event::SinkConfigured(r) => {
                if self.state == StreamState::Negotiating && self.capture.is_some() {
                    match r {
                        Ok(_) => {
                            self.state = StreamState::Streaming;
                            Action::Dequeue
                        },
                        Err(e) => {
                            let _ = self.go_idle();
                            Action::ReportFormatError(e)
                        },
                    }
                } else {
                    self.on_unexpected()
                }
            },
            Event::Captured(r) => {
                if self.state == StreamState::Streaming && !self.awaiting_enqueue {
                    match r {
                        Ok(frame) => self.on_frame(frame),
                        Err(CaptureError::Timeout) => Action::Dequeue,
                        Err(_) => self.stop(),
                    }
                } else {
                    self.on_unexpected()
                }
            },
            Event::Enqueued(r) => {
                if self.state == StreamState::Streaming && self.awaiting_enqueue {
                    match r {
                        Ok(_) => {
                            self.awaiting_enqueue = false;
                            self.forwarded = bump_u64(self.forwarded);
                            Action::Dequeue
                        },
                        Err(SinkError::HostNotStreaming) => {
                            self.awaiting_enqueue = false;
                            self.dropped = bump_u64(self.dropped);
                            Action::Dequeue
                        },
                        Err(SinkError::Disconnected) => self.stop(),
                    }
                } else {
                    self.on_unexpected()
                }
            },
        }
    }
}

/// In every well-formed relay state, the sequence numbers handed to the
/// output node in the session never decrease, and they are the captured
/// sequence numbers with some left out and none reordered.
pub proof fn lemma_sink_order(r: &Relay)
    requires
        r.wf(),
    ensures
        non_decreasing(r.sent@),
        is_subsequence(r.sent@, r.produced@),
{
    assert(embeds(r.sent@, r.produced@, r.picks@));
}

} // verus!
