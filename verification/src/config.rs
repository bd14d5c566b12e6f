//! What a session records: the capture target, the feeds that join it, and
//! the capture sources that follow from them.

use crate::error::{BindingError, Status};
use vstd::prelude::*;

verus! {

/// The one thing a session films: a whole screen or a single window.
#[derive(Clone, Copy, Debug, PartialEq, Eq, Structural)]
pub enum CaptureTarget {
    Screen { id: u32 },
    Window { id: u32 },
}

/// A microphone feed, named by its device.
#[derive(Clone, Copy, Debug, PartialEq, Eq, Structural)]
pub struct AudioSourceRef {
    pub device: u32,
}

/// A camera feed, named by its device.
#[derive(Clone, Copy, Debug, PartialEq, Eq, Structural)]
pub struct CameraFeedRef {
    pub device: u32,
}

/// The inputs every session has. They do not change while it runs.
#[derive(Clone, Copy, Debug, PartialEq, Eq, Structural)]
pub struct RecordingBaseInputs {
    pub capture_target: CaptureTarget,
    pub capture_system_audio: bool,
    pub mic_feed: Option<AudioSourceRef>,
}

/// The inputs a session may have on top of the base inputs.
#[derive(Clone, Copy, Debug, PartialEq, Eq, Structural)]
pub struct OptionalFeeds {
    pub camera_feed: Option<CameraFeedRef>,
    pub custom_cursor_capture: bool,
}

/// What the embedding layer passes to start a recording.
#[derive(Clone, Debug, PartialEq, Eq)]
pub struct RecordingConfig {
    pub output_path: String,
    pub screen_id: Option<u32>,
    pub window_id: Option<u32>,
    pub capture_system_audio: Option<bool>,
    pub fps: Option<u32>,
}

/// One producer of frames or samples.
#[derive(Clone, Copy, Debug, PartialEq, Eq, Structural)]
pub enum SourceKind {
    Screen,
    Window,
    Microphone,
    SystemAudio,
    Camera,
}

/// What happens to a source while its session is paused.
#[derive(Clone, Copy, Debug, PartialEq, Eq, Structural)]
pub enum PausePolicy {
    /// The producer is told to stop capturing until the session resumes.
    PauseProducer,
    /// The producer keeps capturing and what it captures is thrown away.
    DiscardFrames,
}

/// The target that a pair of optional ids selects: the screen if one is
/// named, else the window if one is named, else nothing.
pub open spec fn selected_target(screen_id: Option<u32>, window_id: Option<u32>) -> Option<
    CaptureTarget,
> {
    match (screen_id, window_id) {
        (Some(id), _) => Some(CaptureTarget::Screen { id }),
        (None, Some(id)) => Some(CaptureTarget::Window { id }),
        (None, None) => None,
    }
}

/// The text of the error for a configuration that names no target.
pub open spec fn missing_target_reason() -> Seq<char> {
    "Must specify screen_id or window_id"@
}

/// The sources a session captures from, in the order their queues are
/// numbered: the video source of the target, then system audio, the
/// microphone and the camera, each only if it was asked for.
pub open spec fn sources_of(inputs: RecordingBaseInputs, feeds: OptionalFeeds) -> Seq<SourceKind> {
    let system = if inputs.capture_system_audio {
        seq![SourceKind::SystemAudio]
    } else {
        Seq::<SourceKind>::empty()
    };
    let mic = if inputs.mic_feed is Some {
        seq![SourceKind::Microphone]
    } else {
        Seq::<SourceKind>::empty()
    };
    let camera = if feeds.camera_feed is Some {
        seq![SourceKind::Camera]
    } else {
        Seq::<SourceKind>::empty()
    };
    seq![inputs.capture_target.video_source()] + system + mic + camera
}

/// `held` lists, in rising order, exactly the sources whose producers are
/// told to stop while the session is paused.
pub open spec fn lists_held_sources(sources: Seq<SourceKind>, held: Seq<usize>) -> bool {
    &&& forall|k: int|
        0 <= k < held.len() ==> (#[trigger] held[k]) < sources.len() && sources[held[k] as int].policy()
            == PausePolicy::PauseProducer
    &&& forall|a: int, b: int| 0 <= a < b < held.len() ==> (#[trigger] held[a]) < (#[trigger] held[b])
    &&& forall|i: int|
        0 <= i < sources.len() && (#[trigger] sources[i]).policy() == PausePolicy::PauseProducer
            ==> held.contains(i as usize)
}

impl CaptureTarget {
    /// The source that films this target.
    pub open spec fn video_source(self) -> SourceKind {
        match self {
            CaptureTarget::Screen { .. } => SourceKind::Screen,
            CaptureTarget::Window { .. } => SourceKind::Window,
        }
    }

    /// The source that films this target.
    pub fn source_kind(&self) -> (kind: SourceKind)
        ensures
            kind == self.video_source(),
    {
        match self {
            CaptureTarget::Screen { .. } => SourceKind::Screen,
            CaptureTarget::Window { .. } => SourceKind::Window,
        }
    }
}

impl SourceKind {
    /// Screen and window capture stop producing while paused; every other
    /// source keeps running and its frames are discarded.
    pub open spec fn policy(self) -> PausePolicy {
        match self {
            SourceKind::Screen | SourceKind::Window => PausePolicy::PauseProducer,
            _ => PausePolicy::DiscardFrames,
        }
    }

    /// What to do with this source while its session is paused.
    pub fn pause_policy(&self) -> (policy: PausePolicy)
        ensures
            policy == self.policy(),
    {
        match self {
            SourceKind::Screen | SourceKind::Window => PausePolicy::PauseProducer,
            _ => PausePolicy::DiscardFrames,
        }
    }
}

impl OptionalFeeds {
    /// No camera, and the cursor is captured as part of the picture.
    pub fn none() -> (feeds: OptionalFeeds)
        ensures
            feeds == (OptionalFeeds { camera_feed: None, custom_cursor_capture: false }),
    {
        OptionalFeeds { camera_feed: None, custom_cursor_capture: false }
    }
}

impl RecordingConfig {
    /// The capture target this configuration selects. A screen id wins over
    /// a window id; a configuration with neither is refused.
    pub fn capture_target(&self) -> (target: Result<CaptureTarget, BindingError>)
        ensures
            match target {
                Ok(t) => selected_target(self.screen_id, self.window_id) == Some(t),
                Err(e) => selected_target(self.screen_id, self.window_id) is None && e.status
                    == Status::InvalidArg && e.reason@ == missing_target_reason(),
            },
    {
        match self.screen_id {
            Some(id) => Ok(CaptureTarget::Screen { id }),
            None => match self.window_id {
                Some(id) => Ok(CaptureTarget::Window { id }),
                None => Err(BindingError::invalid_arg("Must specify screen_id or window_id")),
            },
        }
    }

    /// The base inputs of the session this configuration asks for: its
    /// target, system audio only if it was switched on, and no microphone.
    pub fn base_inputs(&self) -> (inputs: Result<RecordingBaseInputs, BindingError>)
        ensures
            match inputs {
                Ok(i) => selected_target(self.screen_id, self.window_id) == Some(i.capture_target)
                    && i.capture_system_audio == (self.capture_system_audio == Some(true))
                    && i.mic_feed is None,
                Err(e) => selected_target(self.screen_id, self.window_id) is None && e.status
                    == Status::InvalidArg && e.reason@ == missing_target_reason(),
            },
    {
        match self.capture_target() {
            Ok(capture_target) => {
                let capture_system_audio = match self.capture_system_audio {
                    Some(flag) => flag,
                    None => false,
                };
                Ok(RecordingBaseInputs { capture_target, capture_system_audio, mic_feed: None })
            },
            Err(e) => Err(e),
        }
    }
}

/// The sources a session with these inputs captures from, in queue order.
pub fn capture_sources(inputs: &RecordingBaseInputs, feeds: &OptionalFeeds) -> (sources: Vec<
    SourceKind,
>)
    ensures
        sources@ == sources_of(*inputs, *feeds),
{
    let mut sources: Vec<SourceKind> = Vec::new();
    sources.push(inputs.capture_target.source_kind());
    if inputs.capture_system_audio {
        sources.push(SourceKind::SystemAudio);
    }
    if inputs.mic_feed.is_some() {
        sources.push(SourceKind::Microphone);
    }
    if feeds.camera_feed.is_some() {
        sources.push(SourceKind::Camera);
    }
    assert(sources@ =~= sources_of(*inputs, *feeds));
    sources
}

/// The numbers of the sources whose producers are told to stop while the
/// session is paused, in rising order. The other sources keep capturing, and
/// what they capture is discarded.
pub fn held_while_paused(sources: &Vec<SourceKind>) -> (held: Vec<usize>)
    ensures
        lists_held_sources(sources@, held@),
{
    let mut held: Vec<usize> = Vec::new();
    let mut i: usize = 0;
    while i < sources.len()
        invariant
            i <= sources.len(),
            forall|k: int|
                0 <= k < held@.len() ==> (#[trigger] held@[k]) < i && sources@[held@[k] as int].policy()
                    == PausePolicy::PauseProducer,
            forall|a: int, b: int|
                0 <= a < b < held@.len() ==> (#[trigger] held@[a]) < (#[trigger] held@[b]),
            forall|j: int|
                0 <= j < i && (#[trigger] sources@[j]).policy() == PausePolicy::PauseProducer
                    ==> held@.contains(j as usize),
        decreases sources.len() - i,
    {
        let ghost before = held@;
        match sources[i].pause_policy() {
            PausePolicy::PauseProducer => {
                held.push(i);
                assert(held@[before.len() as int] == i);
                assert forall|j: int|
                    0 <= j < i + 1 && (#[trigger] sources@[j]).policy()
                        == PausePolicy::PauseProducer implies held@.contains(j as usize) by {
                    if j < i {
                        let k = choose|k: int| 0 <= k < before.len() && before[k] == j as usize;
                        assert(held@[k] == j as usize);
                    }
                }
            },
            PausePolicy::DiscardFrames => {},
        }
        i += 1;
    }
    held
}

} // verus!
