use vstd::prelude::*;
use crate::channel::BridgeChannel;
use crate::frame::{extract_frame, frame_of, sample_ok, FrameFlowError, PixelBuffer, SampleParts};
use crate::player::PlayerHandle;
use crate::settings::{spec_stream_id, stream_id, VideoSettings};
use crate::status::GSTMessage;

verus! {

/// One payload of the bridge channel: the control handle, handed over
/// exactly once when the bridge starts; a decoded frame; or a lifecycle
/// event. Each carries the stream identifier of the bridge that produced
/// it.
#[derive(Clone, Debug)]
pub enum SubMSG {
    Player(String, PlayerHandle),
    Image(String, PixelBuffer),
    Message(String, GSTMessage),
}

/// The state of one subscription. `Starting` holds the source URI and the
/// settings and is left on the first poll, once the pipeline and the
/// channel exist; `Next` then loops forever, delivering one queued payload
/// per poll until the channel closes.
#[derive(Debug)]
pub enum PlayerSubscription {
    Starting(String, VideoSettings),
    Next,
}

/// The handle `advance` emits when it leaves `Starting`.
pub open spec fn initial_handle(settings: VideoSettings) -> PlayerHandle {
    PlayerHandle { paused: !settings.auto_start, muted: false, live: settings.live }
}

/// Registers one subscription: returns its restart key — the configured id,
/// the URI otherwise — and the state the scheduler polls first. A scheduler
/// keyed this way rebuilds the bridge exactly when the key changes: two
/// registrations whose settings differ only in `auto_start` or `live` share
/// a key and so reuse a running bridge mid-stream.
pub fn video_subscription(uri: String, settings: VideoSettings) -> (r: (
    String,
    PlayerSubscription,
))
    ensures
        r.0@ == spec_stream_id(uri@, settings.id_view()),
        r.1 == PlayerSubscription::Starting(uri, settings),
{
    let key = stream_id(&uri, &settings);
    (key, PlayerSubscription::Starting(uri, settings))
}

/// One poll of the subscription state machine.
///
/// On `Starting` it emits the `Player` payload carrying the stream
/// identifier and a fresh handle — paused unless `auto_start` asked
/// otherwise — and moves to `Next`, leaving the channel untouched; the
/// caller owns the channel and has installed the producer callbacks on its
/// sending handles. On `Next` it receives the oldest queued payload and
/// stays in `Next`; the caller waits before polling, so the channel either
/// holds a payload or is closed, and a closed, drained channel emits
/// nothing — the normal end of the sequence, after which every further
/// poll emits nothing too.
pub fn advance(state: PlayerSubscription, chan: &mut BridgeChannel<SubMSG>) -> (r: (
    Option<SubMSG>,
    PlayerSubscription,
))
    requires
        state is Next ==> old(chan).receiver_alive && (old(chan).items@.len() > 0 || old(chan).senders == 0),
    ensures
        r.1 is Next,
        state matches PlayerSubscription::Starting(uri, settings) ==> ({
            &&& *final(chan) == *old(chan)
            &&& r.0 matches Some(m)
            &&& m matches SubMSG::Player(id, h)
            &&& id@ == spec_stream_id(uri@, settings.id_view())
            &&& h == initial_handle(settings)
        }),
        state is Next ==> ({
            &&& final(chan).senders == old(chan).senders
            &&& final(chan).receiver_alive
            &&& old(chan).items@.len() > 0 ==> (r.0 == Some(old(chan).items@[0]) && final(chan).items@ == old(chan).items@.remove(0))
            &&& old(chan).items@.len() == 0 ==> (r.0 is None && final(chan).items@ == old(chan).items@)
        }),
{
    match state {
        PlayerSubscription::Starting(uri, settings) => {
            let id = stream_id(&uri, &settings);
            let handle = PlayerHandle::new(&settings);
            (Some(SubMSG::Player(id, handle)), PlayerSubscription::Next)
        },
        PlayerSubscription::Next => {
            let item = chan.recv();
            (item, PlayerSubscription::Next)
        },
    }
}

/// The frame adapter: the decisions of the producer-side frame callback,
/// run on the pipeline's own thread for every decoded sample. It never
/// panics and never blocks: a missing sample ends the stream, any other
/// missing or inconsistent part skips the frame with a per-frame error the
/// pipeline recovers from, and a valid frame is enqueued as an `Image`
/// payload. A send after the receiving end is gone is also reported as an
/// error, stopping the producer instead of panicking.
pub fn on_frame(chan: &mut BridgeChannel<SubMSG>, id: &String, sample: Option<SampleParts>) -> (r:
    Result<(), FrameFlowError>)
    requires
        old(chan).senders >= 1,
    ensures
        final(chan).senders == old(chan).senders,
        final(chan).receiver_alive == old(chan).receiver_alive,
        sample is None ==> (r == Err::<(), FrameFlowError>(FrameFlowError::Eos) && final(chan).items@ == old(chan).items@),
        sample matches Some(s) ==> ({
            &&& !sample_ok(s) ==> (r == Err::<(), FrameFlowError>(FrameFlowError::Error) && final(chan).items@ == old(chan).items@)
            &&& (sample_ok(s) && old(chan).receiver_alive) ==> (r == Ok::<(), FrameFlowError>(())
                && final(chan).items@ == old(chan).items@.push(SubMSG::Image(*id, frame_of(s))))
            &&& (sample_ok(s) && !old(chan).receiver_alive) ==> (r == Err::<(), FrameFlowError>(
                FrameFlowError::Error,
            ) && final(chan).items@ == old(chan).items@)
        }),
{
    let pb = match extract_frame(sample) {
        Err(e) => {
            return Err(e);
        },
        Ok(pb) => pb,
    };
    match chan.send(SubMSG::Image(id.clone(), pb)) {
        Ok(_) => Ok(()),
        Err(_) => Err(FrameFlowError::Error),
    }
}

/// The status adapter: the decisions of the producer-side message
/// callback. It enqueues the already-classified event under the stream
/// identifier and always tells the pipeline to keep running — status
/// delivery never halts the pipeline, and an event that finds the
/// receiving end gone is dropped, not a panic.
pub fn on_status(chan: &mut BridgeChannel<SubMSG>, id: &String, message: GSTMessage) -> (r: bool)
    requires
        old(chan).senders >= 1,
    ensures
        r == true,
        final(chan).senders == old(chan).senders,
        final(chan).receiver_alive == old(chan).receiver_alive,
        old(chan).receiver_alive ==> final(chan).items@ == old(chan).items@.push(
            SubMSG::Message(*id, message),
        ),
        !old(chan).receiver_alive ==> final(chan).items@ == old(chan).items@,
{
    let _ = chan.send(SubMSG::Message(id.clone(), message));
    true
}

} // verus!
