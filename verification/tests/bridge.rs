use video_bridge::channel::{BridgeChannel, SendError};
use video_bridge::frame::SampleParts;
use video_bridge::settings::VideoSettings;
use video_bridge::status::GSTMessage;
use video_bridge::subscription::{advance, on_frame, on_status, video_subscription, PlayerSubscription, SubMSG};

fn settings(auto_start: bool, live: bool, id: Option<&str>) -> VideoSettings {
    VideoSettings { auto_start, live, id: id.map(|s| s.to_owned()) }
}

fn sample(width: i32, height: i32) -> Option<SampleParts> {
    let n = (width as usize) * (height as usize) * 4;
    Some(SampleParts { bytes: Some(vec![7u8; n]), width: Some(width), height: Some(height) })
}

#[test]
fn registration_returns_key_and_starting_state() {
    let (key, state) = video_subscription("file:///clip.mp4".to_owned(), settings(false, false, None));
    assert_eq!(key, "file:///clip.mp4");
    match state {
        PlayerSubscription::Starting(uri, s) => {
            assert_eq!(uri, "file:///clip.mp4");
            assert!(!s.auto_start);
            assert!(!s.live);
            assert!(s.id.is_none());
        }
        PlayerSubscription::Next => panic!("registration must begin in Starting"),
    }
}

#[test]
fn restart_key_ignores_auto_start() {
    let (k1, _) = video_subscription("file:///a.mp4".to_owned(), settings(false, false, Some("cam")));
    let (k2, _) = video_subscription("file:///a.mp4".to_owned(), settings(true, false, Some("cam")));
    assert_eq!(k1, k2);
}

#[test]
fn restart_key_changes_with_id() {
    let (k1, _) = video_subscription("file:///a.mp4".to_owned(), settings(false, false, Some("cam1")));
    let (k2, _) = video_subscription("file:///a.mp4".to_owned(), settings(false, false, Some("cam2")));
    assert_ne!(k1, k2);
    match video_subscription("file:///a.mp4".to_owned(), settings(false, false, Some("cam2"))).1 {
        PlayerSubscription::Starting(_, _) => {}
        PlayerSubscription::Next => panic!("a new registration never starts in Next"),
    }
}

#[test]
fn ordering_is_fifo() {
    let id = "s".to_owned();
    let mut chan = BridgeChannel::<SubMSG>::new();
    // interleave three frames and two status events
    assert_eq!(on_frame(&mut chan, &id, sample(2, 2)), Ok(()));
    assert!(on_status(&mut chan, &id, GSTMessage::Buffering));
    assert_eq!(on_frame(&mut chan, &id, sample(2, 2)), Ok(()));
    assert_eq!(on_frame(&mut chan, &id, sample(2, 2)), Ok(()));
    assert!(on_status(&mut chan, &id, GSTMessage::Eos));

    let mut observed = Vec::new();
    let mut state = PlayerSubscription::Next;
    for _ in 0..5 {
        let (emit, next) = advance(state, &mut chan);
        state = next;
        match emit.expect("five payloads were enqueued") {
            SubMSG::Image(_, _) => observed.push("frame"),
            SubMSG::Message(_, m) => {
                observed.push(if m == GSTMessage::Eos { "eos" } else { "status" })
            }
            SubMSG::Player(_, _) => observed.push("player"),
        }
    }
    assert_eq!(observed, vec!["frame", "status", "frame", "frame", "eos"]);
}

#[test]
fn teardown_fail_closed() {
    let mut chan = BridgeChannel::<SubMSG>::new();
    chan.clone_sender();
    chan.drop_sender();
    assert!(!chan.is_closed());
    chan.drop_sender();
    assert!(chan.is_closed());
    let (emit, state) = advance(PlayerSubscription::Next, &mut chan);
    assert!(emit.is_none());
    let (emit2, _) = advance(state, &mut chan);
    assert!(emit2.is_none());
}

#[test]
fn closed_channel_drains_before_ending() {
    let id = "s".to_owned();
    let mut chan = BridgeChannel::<SubMSG>::new();
    assert!(on_status(&mut chan, &id, GSTMessage::Error));
    chan.drop_sender();
    assert!(chan.is_closed());
    let (emit, state) = advance(PlayerSubscription::Next, &mut chan);
    match emit {
        Some(SubMSG::Message(mid, m)) => {
            assert_eq!(mid, "s");
            assert_eq!(m, GSTMessage::Error);
        }
        _ => panic!("the queued event is delivered before the stream ends"),
    }
    let (emit2, _) = advance(state, &mut chan);
    assert!(emit2.is_none());
}

#[test]
fn send_fails_without_receiver() {
    let mut chan = BridgeChannel::<u32>::new();
    chan.drop_receiver();
    assert_eq!(chan.send(5), Err(SendError::Disconnected));
    assert_eq!(chan.len(), 0);
}

#[test]
fn adapters_survive_lost_receiver() {
    let id = "s".to_owned();
    let mut chan = BridgeChannel::<SubMSG>::new();
    chan.drop_receiver();
    // the frame adapter reports an error to the pipeline instead of panicking
    assert_eq!(on_frame(&mut chan, &id, sample(2, 2)), Err(video_bridge::frame::FrameFlowError::Error));
    // the status adapter drops the event and still signals "continue"
    assert!(on_status(&mut chan, &id, GSTMessage::Warning));
    assert_eq!(chan.len(), 0);
}

#[test]
fn end_to_end_scenario() {
    let uri = "file:///clip.mp4".to_owned();
    let (key, state) = video_subscription(uri.clone(), settings(false, false, None));
    assert_eq!(key, "file:///clip.mp4");

    let mut chan = BridgeChannel::<SubMSG>::new();
    let (first, state) = advance(state, &mut chan);
    let mut handle = match first.expect("the first poll yields the handle") {
        SubMSG::Player(id, handle) => {
            assert_eq!(id, "file:///clip.mp4");
            assert!(handle.paused());
            handle
        }
        _ => panic!("the first payload is PlayerReady"),
    };

    // the producer thread hands over frames of stable dimensions
    assert_eq!(on_frame(&mut chan, &uri, sample(4, 3)), Ok(()));
    assert_eq!(on_frame(&mut chan, &uri, sample(4, 3)), Ok(()));
    let mut state = state;
    for _ in 0..2 {
        let (emit, next) = advance(state, &mut chan);
        state = next;
        match emit.expect("a frame was queued") {
            SubMSG::Image(id, frame) => {
                assert_eq!(id, "file:///clip.mp4");
                assert_eq!(frame.width, 4);
                assert_eq!(frame.height, 3);
                assert_eq!(frame.pixels.len(), 4 * 3 * 4);
            }
            _ => panic!("only frames were queued"),
        }
    }

    handle.set_paused(false);
    assert!(!handle.paused());
    assert_eq!(handle.seek(5000), Ok(()));
}
