use vstd::prelude::*;
use crate::settings::VideoSettings;

verus! {

/// Why a seek request was refused.
#[derive(Clone, Copy, Debug, PartialEq, Eq, Structural)]
pub enum SeekError {
    /// The stream was opened as live: it has no seekable timeline.
    NotSeekable,
}

/// The consumer-facing control surface of one bridge. It caches the two
/// flags the consumer may read back — `paused` and `muted` — so reading
/// them never round-trips through the pipeline; the cache is the source of
/// truth for these two flags and changes only through the setters here.
/// `live` is fixed at construction and decides whether seeking is allowed.
#[derive(Clone, Copy, Debug, PartialEq, Eq, Structural)]
pub struct PlayerHandle {
    pub paused: bool,
    pub muted: bool,
    pub live: bool,
}

impl PlayerHandle {
    /// The handle after a pause command.
    pub open spec fn with_paused(self, paused: bool) -> PlayerHandle {
        PlayerHandle { paused, ..self }
    }

    /// The handle after a mute command.
    pub open spec fn with_muted(self, muted: bool) -> PlayerHandle {
        PlayerHandle { muted, ..self }
    }

    /// A fresh handle: playing only when the settings ask for an automatic
    /// start, unmuted, live exactly as configured.
    pub fn new(settings: &VideoSettings) -> (h: PlayerHandle)
        ensures
            h.paused == !settings.auto_start,
            h.muted == false,
            h.live == settings.live,
    {
        PlayerHandle { paused: !settings.auto_start, muted: false, live: settings.live }
    }

    /// Commands the pipeline to pause or resume and records the new state.
    pub fn set_paused(&mut self, paused: bool)
        ensures
            *final(self) == old(self).with_paused(paused),
            final(self).paused == paused,
    {
        self.paused = paused;
    }

    /// The cached paused flag.
    pub fn paused(&self) -> (r: bool)
        ensures
            r == self.paused,
    {
        self.paused
    }

    /// Commands the pipeline mute state and records it.
    pub fn set_muted(&mut self, muted: bool)
        ensures
            *final(self) == old(self).with_muted(muted),
            final(self).muted == muted,
    {
        self.muted = muted;
    }

    /// The cached muted flag.
    pub fn muted(&self) -> (r: bool)
        ensures
            r == self.muted,
    {
        self.muted
    }

    /// Decides a request to jump to an absolute position, in milliseconds.
    /// A live stream is never seekable: the request is refused with an
    /// error — never a panic — and playback state is left untouched. On a
    /// seekable stream the request is accepted and may be forwarded to the
    /// pipeline.
    pub fn seek(&mut self, position_ms: u64) -> (r: Result<(), SeekError>)
        ensures
            *final(self) == *old(self),
            old(self).live ==> r == Err::<(), SeekError>(SeekError::NotSeekable),
            !old(self).live ==> r == Ok::<(), SeekError>(()),
    {
        if self.live {
            Err(SeekError::NotSeekable)
        } else {
            Ok(())
        }
    }
}

/// Control idempotence law: pausing twice in a row reads back as paused
/// both times, and toggling mute twice returns the handle to its former
/// muted value; no command disturbs the other cached flag.
pub proof fn lemma_control_idempotence(h: PlayerHandle)
    ensures
        h.with_paused(true).paused == true,
        h.with_paused(true).with_paused(true).paused == true,
        h.with_paused(true).muted == h.muted,
        h.with_muted(!h.muted).with_muted(!h.with_muted(!h.muted).muted).muted == h.muted,
        h.with_muted(!h.muted).paused == h.paused,
{
}

} // verus!
