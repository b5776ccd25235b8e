use vstd::prelude::*;

verus! {

/// Configuration for one video bridge instance, fixed at subscription time.
#[derive(Clone, Debug)]
pub struct VideoSettings {
    /// Start the pipeline in the playing state.
    pub auto_start: bool,
    /// A live source has no seekable timeline: duration is unknown and
    /// seeking is refused.
    pub live: bool,
    /// Logical stream identifier; when absent the source URI is used.
    pub id: Option<String>,
}

impl VideoSettings {
    /// The configured identifier, as a mathematical value.
    pub open spec fn id_view(self) -> Option<Seq<char>> {
        match self.id {
            Some(s) => Some(s@),
            None => None,
        }
    }
}

impl Default for VideoSettings {
    fn default() -> (s: Self)
        ensures
            s.auto_start == false,
            s.live == false,
            s.id is None,
    {
        VideoSettings { auto_start: false, live: false, id: None }
    }
}

/// The restart key of a subscription: the configured id, the URI otherwise.
pub open spec fn spec_stream_id(uri: Seq<char>, id: Option<Seq<char>>) -> Seq<char> {
    match id {
        Some(i) => i,
        None => uri,
    }
}

/// Computes the restart key for a subscription on `uri` under `settings`.
pub fn stream_id(uri: &String, settings: &VideoSettings) -> (r: String)
    ensures
        r@ == spec_stream_id(uri@, settings.id_view()),
{
    match &settings.id {
        Some(id) => id.clone(),
        None => uri.clone(),
    }
}

/// Restart-key laws: the key depends only on the URI and the configured id —
/// changing `auto_start` or `live` alone never changes it — and two
/// subscriptions configured with different explicit ids get different keys.
pub proof fn lemma_restart_key(uri: Seq<char>, a: VideoSettings, b: VideoSettings)
    ensures
        a.id_view() == b.id_view() ==> spec_stream_id(uri, a.id_view()) == spec_stream_id(
            uri,
            b.id_view(),
        ),
        (a.id_view() matches Some(x) && b.id_view() matches Some(y) && x != y) ==> spec_stream_id(
            uri,
            a.id_view(),
        ) != spec_stream_id(uri, b.id_view()),
{
}

} // verus!
