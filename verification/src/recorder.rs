//! The recorder as the embedding layer sees it: one slot for the handle of
//! the recording that is under way, and the rules for what each call does
//! with it.
//!
//! The recorder decides; it does not wait. A call comes back with the command
//! to send, or is refused at once when no recording is active. The reply of
//! the session is turned into the caller's result by functions of their own.

use crate::actor::{Command, CompletedRecording, Reply};
use crate::config::{
    missing_target_reason, selected_target, OptionalFeeds, RecordingBaseInputs, RecordingConfig,
};
use crate::devices::{devices_of, first_busy, DeviceLedger};
use crate::error::{BindingError, CommandError, ErrorPhase, RecordingError, Status};
use crate::handle::SessionHandle;
use crate::identity::{is_generated_id, SessionIdentity};
use crate::session::{busy_reason, spawn, Session, SessionModel};
use vstd::prelude::*;

verus! {

/// How long a caller waits for `stop` to finish, in seconds.
pub const STOP_TIMEOUT_SECS: u64 = 30;

/// The recorder: at most one recording at a time.
pub struct CapRecorder {
    handle: Option<SessionHandle>,
}

/// Everything that is needed to spawn the session a configuration asks for.
#[derive(Clone, Debug, PartialEq, Eq)]
pub struct SpawnRequest {
    pub identity: SessionIdentity,
    pub base_inputs: RecordingBaseInputs,
    pub feeds: OptionalFeeds,
}

/// How waiting for a `stop` ended.
#[derive(Clone, Debug, PartialEq, Eq)]
pub enum StopOutcome {
    /// The session finalized its recording.
    Completed(CompletedRecording),
    /// The session answered with an error.
    Failed(String),
    /// The session did not answer in time. It may still finish.
    TimedOut,
}

/// A screen that can be recorded, as the capture layer lists it.
#[derive(Clone, Debug, PartialEq, Eq)]
pub struct CaptureScreen {
    pub id: u32,
    pub name: String,
    pub refresh_rate: u32,
}

/// A window that can be recorded, as the capture layer lists it.
#[derive(Clone, Debug, PartialEq, Eq)]
pub struct CaptureWindow {
    pub id: u32,
    pub owner_name: String,
    pub name: String,
}

/// A screen, as it is shown to the embedding layer.
#[derive(Clone, Debug, PartialEq, Eq)]
pub struct ScreenInfo {
    pub id: u32,
    pub name: String,
    pub refresh_rate: u32,
}

/// A window, as it is shown to the embedding layer.
#[derive(Clone, Debug, PartialEq, Eq)]
pub struct WindowInfo {
    pub id: u32,
    pub title: String,
    pub owner_name: String,
}

/// The words that name a command in an error.
pub open spec fn failure_context(command: Command) -> Seq<char> {
    match command {
        Command::Pause => "Failed to pause"@,
        Command::Resume => "Failed to resume"@,
        Command::Stop => "Failed to stop recording"@,
        Command::Cancel => "Failed to cancel"@,
    }
}

/// The text of the error for a command that failed with `cause`.
pub open spec fn failure_reason(command: Command, cause: Seq<char>) -> Seq<char> {
    failure_context(command) + ": "@ + cause
}

/// The text of the error for a session that could not be started.
pub open spec fn start_failure_reason(cause: Seq<char>) -> Seq<char> {
    "Failed to start recording"@ + ": "@ + cause
}

/// The text of the error for a `stop` that was not answered in time.
pub open spec fn stop_timeout_reason() -> Seq<char> {
    "Stop recording timed out after 30 seconds"@
}

/// The info that a listed screen is shown as.
pub open spec fn screen_info(screen: CaptureScreen) -> ScreenInfo {
    ScreenInfo { id: screen.id, name: screen.name, refresh_rate: screen.refresh_rate }
}

/// The info that a listed window is shown as: its name is its title.
pub open spec fn window_info(window: CaptureWindow) -> WindowInfo {
    WindowInfo { id: window.id, title: window.name, owner_name: window.owner_name }
}

/// The request that a configuration and a recording id make, if the
/// configuration names a target.
pub open spec fn planned(config: RecordingConfig, recording_id: String) -> Option<SpawnRequest> {
    match selected_target(config.screen_id, config.window_id) {
        Some(capture_target) => Some(
            SpawnRequest {
                identity: SessionIdentity { recording_id, output_path: config.output_path },
                base_inputs: RecordingBaseInputs {
                    capture_target,
                    capture_system_audio: config.capture_system_audio == Some(true),
                    mic_feed: None,
                },
                feeds: OptionalFeeds { camera_feed: None, custom_cursor_capture: false },
            },
        ),
        None => None,
    }
}

/// What the recorder answers when a command is called on it: the command to
/// send, if a recording is under way. With an empty slot, or with a handle
/// that is spent, no recording is active and the call is refused.
pub open spec fn dispatch(handle: Option<SessionHandle>, command: Command) -> Result<
    Command,
    CommandError,
> {
    match handle {
        Some(h) => if h.attached() {
            Ok(command)
        } else {
            Err(CommandError::NoActiveRecording)
        },
        None => Err(CommandError::NoActiveRecording),
    }
}

/// The error that the embedding layer gets when no recording is active: an
/// invalid argument with the text of that refusal.
pub open spec fn is_no_active_recording(error: BindingError) -> bool {
    error.status == Status::InvalidArg && error.reason@ == CommandError::NoActiveRecording.text()
}

/// What a reply of the session means to a caller who waits for `stop`: the
/// recording, or the text of the failure or refusal. Any other reply is no
/// answer to a `stop`.
pub open spec fn ends_stop(reply: Reply, outcome: Option<StopOutcome>) -> bool {
    match reply {
        Reply::Stopped(completed) => outcome == Some(StopOutcome::Completed(completed)),
        Reply::StopFailed(error) => outcome matches Some(StopOutcome::Failed(cause)) && cause@
            == error.text(),
        Reply::Rejected(refusal) => outcome matches Some(StopOutcome::Failed(cause)) && cause@
            == refusal.text(),
        _ => outcome is None,
    }
}

/// What a reply of the session means to a caller of `pause`, `resume` or
/// `cancel`: done, or the text of the refusal. Any other reply is no answer
/// to these commands.
pub open spec fn answers(reply: Reply, answer: Option<Result<(), String>>) -> bool {
    match reply {
        Reply::Done => answer == Some(Ok::<(), String>(())),
        Reply::Rejected(refusal) => answer matches Some(Err(cause)) && cause@ == refusal.text(),
        _ => answer is None,
    }
}

/// The error for a call that finds no active recording.
fn no_active_recording() -> (error: BindingError)
    ensures
        is_no_active_recording(error),
{
    BindingError::invalid_arg("No active recording")
}

/// Turns what the handle says into the recorder's answer.
fn issued(asked: Result<Command, CommandError>) -> (out: Result<Command, BindingError>)
    ensures
        match out {
            Ok(command) => asked == Ok::<Command, CommandError>(command),
            Err(e) => asked is Err && is_no_active_recording(e),
        },
{
    match asked {
        Ok(command) => Ok(command),
        Err(_) => Err(no_active_recording()),
    }
}

/// Reads the session's reply as the end of a `stop`, if it is one.
pub fn stop_outcome(reply: Reply) -> (outcome: Option<StopOutcome>)
    ensures
        ends_stop(reply, outcome),
{
    match reply {
        Reply::Stopped(completed) => Some(StopOutcome::Completed(completed)),
        Reply::StopFailed(error) => Some(StopOutcome::Failed(error.message())),
        Reply::Rejected(refusal) => Some(StopOutcome::Failed(refusal.message())),
        _ => None,
    }
}

/// Reads the session's reply as the answer to `pause`, `resume` or `cancel`,
/// if it is one.
pub fn command_answer(reply: Reply) -> (answer: Option<Result<(), String>>)
    ensures
        answers(reply, answer),
{
    match reply {
        Reply::Done => Some(Ok(())),
        Reply::Rejected(refusal) => Some(Err(refusal.message())),
        _ => None,
    }
}

/// The error for a command that failed with `cause`.
fn command_failure(command: Command, cause: &str) -> (error: BindingError)
    ensures
        error.status == Status::GenericFailure,
        error.reason@ == failure_reason(command, cause@),
{
    match command {
        Command::Pause => BindingError::failure("Failed to pause", cause),
        Command::Resume => BindingError::failure("Failed to resume", cause),
        Command::Stop => BindingError::failure("Failed to stop recording", cause),
        Command::Cancel => BindingError::failure("Failed to cancel", cause),
    }
}

/// Builds the request for the session that `config` asks for, under the
/// given recording id. A configuration that names neither a screen nor a
/// window is refused.
pub fn plan_start(config: RecordingConfig, recording_id: String) -> (out: Result<
    SpawnRequest,
    BindingError,
>)
    ensures
        match out {
            Ok(request) => planned(config, recording_id) == Some(request),
            Err(e) => planned(config, recording_id) is None && e.status == Status::InvalidArg
                && e.reason@ == missing_target_reason(),
        },
{
    match config.base_inputs() {
        Ok(base_inputs) => Ok(
            SpawnRequest {
                identity: SessionIdentity::new(recording_id, config.output_path),
                base_inputs,
                feeds: OptionalFeeds::none(),
            },
        ),
        Err(e) => Err(e),
    }
}

impl SpawnRequest {
    /// Spawns the session this request describes, with devices from
    /// `ledger`. `started` tells how starting the capture sources and the
    /// sink went.
    pub fn spawn(self, ledger: &mut DeviceLedger, started: Result<(), String>) -> (out: Result<
        (SessionHandle, Session),
        RecordingError,
    >)
        ensures
            match out {
                Ok((handle, session)) => {
                    &&& started is Ok
                    &&& first_busy(old(ledger)@, devices_of(self.base_inputs, self.feeds)) is None
                    &&& final(ledger)@ == old(ledger)@.union(
                        devices_of(self.base_inputs, self.feeds).to_set(),
                    )
                    &&& handle.session() == Some(self.identity.recording_id)
                    &&& session@ == SessionModel::started(
                        self.identity.recording_id,
                        self.identity.output_path,
                        self.base_inputs,
                        self.feeds,
                    )
                    &&& session@.wf()
                },
                Err(error) => {
                    &&& final(ledger)@ == old(ledger)@
                    &&& error.phase == ErrorPhase::CaptureStart
                    &&& if first_busy(old(ledger)@, devices_of(self.base_inputs, self.feeds))
                        is Some {
                        error.cause@ == busy_reason()
                    } else {
                        started is Err && error.cause == started->Err_0
                    }
                },
            },
    {
        spawn(
            self.identity.recording_id,
            self.identity.output_path,
            self.base_inputs,
            self.feeds,
            ledger,
            started,
        )
    }
}

impl CapRecorder {
    /// The handle of the recording that is under way, if there is one.
    pub closed spec fn slot(&self) -> Option<SessionHandle> {
        self.handle
    }

    /// A recorder with no recording under way.
    pub fn new() -> (recorder: CapRecorder)
        ensures
            recorder.slot() is None,
    {
        CapRecorder { handle: None }
    }

    /// Whether a recording is under way.
    pub fn is_recording(&self) -> (b: bool)
        ensures
            b == (self.slot() is Some),
    {
        self.handle.is_some()
    }

    /// Decides what to spawn for `config`: the target it selects, system
    /// audio if it asks for it, no microphone, no camera, the cursor as part
    /// of the picture, under a freshly generated recording id. The recorder
    /// itself does not change until the session has been spawned.
    pub fn start_recording(&self, config: RecordingConfig) -> (out: Result<
        SpawnRequest,
        BindingError,
    >)
        ensures
            match out {
                Ok(request) => planned(config, request.identity.recording_id) == Some(request)
                    && is_generated_id(request.identity.recording_id@),
                Err(e) => selected_target(config.screen_id, config.window_id) is None && e.status
                    == Status::InvalidArg && e.reason@ == missing_target_reason(),
            },
    {
        match config.base_inputs() {
            Ok(base_inputs) => Ok(
                SpawnRequest {
                    identity: SessionIdentity::generate(config.output_path),
                    base_inputs,
                    feeds: OptionalFeeds::none(),
                },
            ),
            Err(e) => Err(e),
        }
    }

    /// Takes note of how spawning went. The handle of a spawned session
    /// takes the slot, in place of any that was there; a failure leaves the
    /// slot as it was and is reported with its cause.
    pub fn recording_started(&mut self, spawned: Result<SessionHandle, String>) -> (out: Result<
        (),
        BindingError,
    >)
        ensures
            match spawned {
                Ok(handle) => out is Ok && final(self).slot() == Some(handle),
                Err(cause) => {
                    &&& final(self).slot() == old(self).slot()
                    &&& out matches Err(e)
                    &&& e.status == Status::GenericFailure
                    &&& e.reason@ == start_failure_reason(cause@)
                },
            },
    {
        match spawned {
            Ok(handle) => {
                self.handle = Some(handle);
                Ok(())
            },
            Err(cause) => Err(BindingError::failure("Failed to start recording", cause.as_str())),
        }
    }

    /// Begins to stop the recording, and empties the slot in any case. With
    /// a recording under way the answer is the `stop` command to send; with
    /// none, the caller is told that no recording is active.
    pub fn stop_recording(&mut self) -> (out: Result<Command, BindingError>)
        ensures
            final(self).slot() is None,
            match out {
                Ok(command) => dispatch(old(self).slot(), Command::Stop) == Ok::<
                    Command,
                    CommandError,
                >(command),
                Err(e) => dispatch(old(self).slot(), Command::Stop) is Err
                    && is_no_active_recording(e),
            },
    {
        match self.handle.take() {
            Some(mut handle) => issued(handle.stop()),
            None => Err(no_active_recording()),
        }
    }

    /// Turns the end of waiting for `stop` into the caller's result: the
    /// path of the recording, or the error.
    pub fn stop_finished(outcome: StopOutcome) -> (out: Result<String, BindingError>)
        ensures
            match outcome {
                StopOutcome::Completed(completed) => out == Ok::<String, BindingError>(
                    completed.project_path,
                ),
                StopOutcome::Failed(cause) => {
                    &&& out matches Err(e)
                    &&& e.status == Status::GenericFailure
                    &&& e.reason@ == failure_reason(Command::Stop, cause@)
                },
                StopOutcome::TimedOut => {
                    &&& out matches Err(e)
                    &&& e.status == Status::GenericFailure
                    &&& e.reason@ == stop_timeout_reason()
                },
            },
    {
        match outcome {
            StopOutcome::Completed(completed) => Ok(completed.project_path),
            StopOutcome::Failed(cause) => Err(command_failure(Command::Stop, cause.as_str())),
            StopOutcome::TimedOut => Err(
                BindingError::generic("Stop recording timed out after 30 seconds"),
            ),
        }
    }

    /// Decides what `pause` does: with a recording under way, the command
    /// to send; with none, the caller is told that no recording is active.
    pub fn pause_recording(&self) -> (out: Result<Command, BindingError>)
        ensures
            match out {
                Ok(command) => dispatch(self.slot(), Command::Pause) == Ok::<
                    Command,
                    CommandError,
                >(command),
                Err(e) => dispatch(self.slot(), Command::Pause) is Err && is_no_active_recording(e),
            },
    {
        match &self.handle {
            Some(handle) => issued(handle.pause()),
            None => Err(no_active_recording()),
        }
    }

    /// Decides what `resume` does: with a recording under way, the command
    /// to send; with none, the caller is told that no recording is active.
    pub fn resume_recording(&self) -> (out: Result<Command, BindingError>)
        ensures
            match out {
                Ok(command) => dispatch(self.slot(), Command::Resume) == Ok::<
                    Command,
                    CommandError,
                >(command),
                Err(e) => dispatch(self.slot(), Command::Resume) is Err && is_no_active_recording(
                    e,
                ),
            },
    {
        match &self.handle {
            Some(handle) => issued(handle.resume()),
            None => Err(no_active_recording()),
        }
    }

    /// Decides what `cancel` does, and empties the slot in any case: with a
    /// recording under way, the command to send; with none, the caller is
    /// told that no recording is active.
    pub fn cancel_recording(&mut self) -> (out: Result<Command, BindingError>)
        ensures
            final(self).slot() is None,
            match out {
                Ok(command) => dispatch(old(self).slot(), Command::Cancel) == Ok::<
                    Command,
                    CommandError,
                >(command),
                Err(e) => dispatch(old(self).slot(), Command::Cancel) is Err
                    && is_no_active_recording(e),
            },
    {
        match self.handle.take() {
            Some(mut handle) => issued(handle.cancel()),
            None => Err(no_active_recording()),
        }
    }

    /// Turns the session's answer to `pause`, `resume` or `cancel` into the
    /// caller's result: an error names the command and the cause.
    pub fn command_finished(command: Command, answer: Result<(), String>) -> (out: Result<
        (),
        BindingError,
    >)
        ensures
            match answer {
                Ok(_) => out is Ok,
                Err(cause) => {
                    &&& out matches Err(e)
                    &&& e.status == Status::GenericFailure
                    &&& e.reason@ == failure_reason(command, cause@)
                },
            },
    {
        match answer {
            Ok(_) => Ok(()),
            Err(cause) => Err(command_failure(command, cause.as_str())),
        }
    }
}

/// The screens that can be recorded, as they are shown to the embedding
/// layer: one info for each listed screen, in the same order.
pub fn list_available_screens(screens: Vec<CaptureScreen>) -> (infos: Vec<ScreenInfo>)
    ensures
        infos@ == screens@.map_values(|s: CaptureScreen| screen_info(s)),
{
    let mut screens = screens;
    let ghost listed = screens@;
    let mut infos: Vec<ScreenInfo> = Vec::new();
    while screens.len() > 0
        invariant
            infos@.len() + screens@.len() == listed.len(),
            forall|i: int| 0 <= i < infos@.len() ==> infos@[i] == screen_info(#[trigger] listed[i]),
            forall|i: int|
                0 <= i < screens@.len() ==> (#[trigger] screens@[i]) == listed[infos@.len() + i],
        decreases screens@.len(),
    {
        let screen = screens.remove(0);
        infos.push(
            ScreenInfo { id: screen.id, name: screen.name, refresh_rate: screen.refresh_rate },
        );
    }
    assert(infos@ =~= listed.map_values(|s: CaptureScreen| screen_info(s)));
    infos
}

/// The windows that can be recorded, as they are shown to the embedding
/// layer: one info for each listed window, in the same order.
pub fn list_available_windows(windows: Vec<CaptureWindow>) -> (infos: Vec<WindowInfo>)
    ensures
        infos@ == windows@.map_values(|w: CaptureWindow| window_info(w)),
{
    let mut windows = windows;
    let ghost listed = windows@;
    let mut infos: Vec<WindowInfo> = Vec::new();
    while windows.len() > 0
        invariant
            infos@.len() + windows@.len() == listed.len(),
            forall|i: int| 0 <= i < infos@.len() ==> infos@[i] == window_info(#[trigger] listed[i]),
            forall|i: int|
                0 <= i < windows@.len() ==> (#[trigger] windows@[i]) == listed[infos@.len() + i],
        decreases windows@.len(),
    {
        let window = windows.remove(0);
        infos.push(WindowInfo { id: window.id, title: window.name, owner_name: window.owner_name });
    }
    assert(infos@ =~= listed.map_values(|w: CaptureWindow| window_info(w)));
    infos
}

/// Once the slot is empty, whether no recording was started or `stop` or
/// `cancel` emptied it, every command is refused for want of an active
/// recording, however often it is called.
pub proof fn law_empty_slot_refuses(command: Command)
    ensures
        dispatch(None, command) == Err::<Command, CommandError>(CommandError::NoActiveRecording),
{
}

} // verus!
