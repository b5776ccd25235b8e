use vstd::prelude::*;

verus! {

/// Closed enumeration of the pipeline's lifecycle and diagnostic event
/// categories. Only the category tag is preserved; message payloads are
/// dropped at the producer side. Categories the mapping does not recognise
/// fall into `Other` rather than failing, so the set stays closed even as
/// the upstream taxonomy grows.
#[derive(Clone, Copy, Debug, PartialEq, Eq, Structural)]
pub enum GSTMessage {
    Eos,
    Error,
    Warning,
    Info,
    Tag,
    Buffering,
    StateChanged,
    StateDirty,
    StepDone,
    ClockProvide,
    ClockLost,
    NewClock,
    StructureChange,
    StreamStatus,
    Application,
    Element,
    SegmentStart,
    SegmentDone,
    DurationChanged,
    Latency,
    AsyncStart,
    AsyncDone,
    RequestState,
    StepStart,
    Qos,
    Progress,
    Toc,
    ResetTime,
    StreamStart,
    NeedContext,
    HaveContext,
    DeviceAdded,
    DeviceRemoved,
    PropertyNotify,
    StreamCollection,
    StreamsSelected,
    Redirect,
    Other,
}

} // verus!
