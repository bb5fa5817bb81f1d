use uvc_relay::{
    negotiate, Action, CaptureError, ControlEvent, Event, Frame, PixelFormat, Relay, SinkConfig, SinkError,
    StreamFormat, StreamState,
};

fn full_hd_mjpeg() -> StreamFormat {
    StreamFormat::at_fps(PixelFormat::mjpeg(), 1920, 1080, 30)
}

fn jpeg(tag: u8) -> Vec<u8> {
    vec![0xFF, 0xD8, tag, 0xFF, 0xD9]
}

/// Brings a relay to `Streaming` in `fmt`, with a capture device and an
/// output node that both support exactly `fmt`.
fn start_streaming(fmt: StreamFormat) -> (Relay, SinkConfig, Action) {
    let mut relay = Relay::new();
    let mut sink = SinkConfig::new(vec![fmt]);
    let action = relay.step(Event::Control(ControlEvent::StreamOn(fmt)));
    let action = match action {
        Action::NegotiateCapture(f) => relay.step(Event::CaptureNegotiated(negotiate(&f, &vec![fmt]))),
        other => panic!("unexpected action {:?}", other),
    };
    let action = match action {
        Action::ConfigureSink(f) => relay.step(Event::SinkConfigured(sink.configure(f))),
        other => panic!("unexpected action {:?}", other),
    };
    (relay, sink, action)
}

/// Feeds the frames to the relay as a capture device would, and returns the
/// sequence numbers the output node received.
fn relay_frames(relay: &mut Relay, sink: &SinkConfig, first: Action, frames: Vec<Frame>) -> Vec<u64> {
    let mut received = Vec::new();
    let mut pending = frames.into_iter();
    let mut action = first;
    loop {
        action = match action {
            Action::Dequeue => match pending.next() {
                Some(f) => relay.step(Event::Captured(Ok(f))),
                None => break,
            },
            Action::Enqueue(g) => {
                assert!(sink.accepts(&g));
                received.push(g.sequence);
                relay.step(Event::Enqueued(Ok(())))
            }
            other => panic!("unexpected action {:?}", other),
        };
    }
    received
}

#[test]
fn malformed_frame_is_dropped_and_counted() {
    let fmt = full_hd_mjpeg();
    let (mut relay, sink, action) = start_streaming(fmt);
    assert_eq!(relay.state, StreamState::Streaming);
    let mut frames = Vec::new();
    for seq in 0..10u64 {
        let data = if seq == 5 { vec![0x00, 0x01, 0x02] } else { jpeg(seq as u8) };
        frames.push(Frame::new(data, &fmt, seq * 33_333, seq));
    }
    let received = relay_frames(&mut relay, &sink, action, frames);
    assert_eq!(received, vec![0, 1, 2, 3, 4, 6, 7, 8, 9]);
    assert_eq!(relay.dropped, 1);
    assert_eq!(relay.forwarded, 9);
}

#[test]
fn sink_disconnect_stops_then_idles() {
    let fmt = full_hd_mjpeg();
    let (mut relay, sink, action) = start_streaming(fmt);
    assert!(matches!(action, Action::Dequeue));
    let action = relay.step(Event::Captured(Ok(Frame::new(jpeg(0), &fmt, 0, 0))));
    let g = match action {
        Action::Enqueue(g) => g,
        other => panic!("unexpected action {:?}", other),
    };
    assert!(sink.accepts(&g));
    let action = relay.step(Event::Enqueued(Err(SinkError::Disconnected)));
    assert_eq!(relay.state, StreamState::Stopping);
    assert!(matches!(action, Action::Release));
    let action = relay.step(Event::Released);
    assert_eq!(relay.state, StreamState::Idle);
    assert!(matches!(action, Action::WaitControl));
    assert!(relay.capture.is_none());
}

#[test]
fn stream_off_during_dequeue_stops() {
    let fmt = full_hd_mjpeg();
    let (mut relay, _sink, action) = start_streaming(fmt);
    assert!(matches!(action, Action::Dequeue));
    assert_eq!(fmt.frame_timeout_us(), 33_333);
    let action = relay.step(Event::Control(ControlEvent::StreamOff));
    assert_eq!(relay.state, StreamState::Stopping);
    assert!(matches!(action, Action::Release));
    // The frame the blocked dequeue returned late is released, not sent.
    let action = relay.step(Event::Captured(Ok(Frame::new(jpeg(1), &fmt, 0, 1))));
    assert_eq!(relay.state, StreamState::Stopping);
    assert!(matches!(action, Action::Release));
    let action = relay.step(Event::Released);
    assert_eq!(relay.state, StreamState::Idle);
    assert!(matches!(action, Action::WaitControl));
}

#[test]
fn reordered_frame_is_dropped() {
    let fmt = full_hd_mjpeg();
    let (mut relay, sink, action) = start_streaming(fmt);
    let frames = vec![
        Frame::new(jpeg(0), &fmt, 0, 0),
        Frame::new(jpeg(2), &fmt, 0, 2),
        Frame::new(jpeg(1), &fmt, 0, 1),
        Frame::new(jpeg(2), &fmt, 0, 2),
        Frame::new(jpeg(3), &fmt, 0, 3),
    ];
    let received = relay_frames(&mut relay, &sink, action, frames);
    assert_eq!(received, vec![0, 2, 2, 3]);
    assert_eq!(relay.dropped, 1);
}

#[test]
fn capture_timeout_keeps_streaming() {
    let (mut relay, _sink, _action) = start_streaming(full_hd_mjpeg());
    let action = relay.step(Event::Captured(Err(CaptureError::Timeout)));
    assert_eq!(relay.state, StreamState::Streaming);
    assert!(matches!(action, Action::Dequeue));
    assert_eq!(relay.dropped, 0);
}

#[test]
fn capture_fault_stops() {
    let (mut relay, _sink, _action) = start_streaming(full_hd_mjpeg());
    let action = relay.step(Event::Captured(Err(CaptureError::DriverFault)));
    assert_eq!(relay.state, StreamState::Stopping);
    assert!(matches!(action, Action::Release));
    let (mut relay, _sink, _action) = start_streaming(full_hd_mjpeg());
    relay.step(Event::Captured(Err(CaptureError::Disconnected)));
    assert_eq!(relay.state, StreamState::Stopping);
}

#[test]
fn host_not_streaming_drops_frame() {
    let fmt = full_hd_mjpeg();
    let (mut relay, _sink, _action) = start_streaming(fmt);
    let action = relay.step(Event::Captured(Ok(Frame::new(jpeg(0), &fmt, 0, 0))));
    assert!(matches!(action, Action::Enqueue(_)));
    let action = relay.step(Event::Enqueued(Err(SinkError::HostNotStreaming)));
    assert_eq!(relay.state, StreamState::Streaming);
    assert!(matches!(action, Action::Dequeue));
    assert_eq!(relay.dropped, 1);
    assert_eq!(relay.forwarded, 0);
}

#[test]
fn failed_negotiation_returns_to_idle() {
    let mut relay = Relay::new();
    let want = full_hd_mjpeg();
    relay.step(Event::Control(ControlEvent::StreamOn(want)));
    assert_eq!(relay.state, StreamState::Negotiating);
    let yuyv = StreamFormat::at_fps(PixelFormat::yuyv(), 640, 480, 30);
    let action = relay.step(Event::CaptureNegotiated(negotiate(&want, &vec![yuyv])));
    assert_eq!(relay.state, StreamState::Idle);
    assert!(matches!(action, Action::ReportFormatError(uvc_relay::FormatError::NoMatch)));
}

#[test]
fn yuyv_capture_feeds_grey_output() {
    let out = StreamFormat::at_fps(PixelFormat::grey(), 2, 1, 30);
    let cap = StreamFormat::at_fps(PixelFormat::yuyv(), 2, 1, 30);
    let mut relay = Relay::new();
    relay.step(Event::Control(ControlEvent::StreamOn(out)));
    let action = relay.step(Event::CaptureNegotiated(negotiate(&out, &vec![cap])));
    assert!(matches!(action, Action::ConfigureSink(f) if f == out));
    let action = relay.step(Event::SinkConfigured(Ok(())));
    assert!(matches!(action, Action::Dequeue));
    let action = relay.step(Event::Captured(Ok(Frame::new(vec![10, 128, 20, 128], &cap, 7, 0))));
    match action {
        Action::Enqueue(g) => {
            assert_eq!(g.data, vec![10, 20]);
            assert_eq!(g.pixel, PixelFormat::grey());
            assert_eq!(g.timestamp_us, 7);
        }
        other => panic!("unexpected action {:?}", other),
    }
}

#[test]
fn shutdown_finishes() {
    let (mut relay, _sink, _action) = start_streaming(full_hd_mjpeg());
    let action = relay.step(Event::Control(ControlEvent::Shutdown));
    assert!(matches!(action, Action::Release));
    let action = relay.step(Event::Released);
    assert!(matches!(action, Action::Finish));
    assert_eq!(relay.state, StreamState::Idle);
}
