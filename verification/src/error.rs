//! What can go wrong, and how it is told to the caller.

use vstd::prelude::*;
use vstd::string::*;

verus! {

/// The part of a session's life in which a failure happened.
#[derive(Clone, Copy, Debug, PartialEq, Eq, Structural)]
pub enum ErrorPhase {
    /// While the capture sources and the sink were being started.
    CaptureStart,
    /// While frames were flowing, or while the session was paused.
    MidRecording,
    /// While the container was being flushed and closed.
    Finalize,
}

/// A failure of the pipeline: what happened and in which phase.
#[derive(Clone, Debug, PartialEq, Eq)]
pub struct RecordingError {
    pub phase: ErrorPhase,
    pub cause: String,
}

/// A command that the session could not accept in the state it was in.
#[derive(Clone, Copy, Debug, PartialEq, Eq, Structural)]
pub enum CommandError {
    /// `pause` was sent to a session that is not recording.
    NotRecording,
    /// `resume` was sent to a session that is not paused.
    NotPaused,
    /// The session has not started, is stopping, or has ended.
    NoActiveRecording,
}

/// How severe the embedding layer should treat an error.
#[derive(Clone, Copy, Debug, PartialEq, Eq, Structural)]
pub enum Status {
    /// The caller passed something unusable.
    InvalidArg,
    /// The recorder failed while doing what it was asked.
    GenericFailure,
}

/// An error in the form the embedding layer reports it.
#[derive(Clone, Debug, PartialEq, Eq)]
pub struct BindingError {
    pub status: Status,
    pub reason: String,
}

impl ErrorPhase {
    /// The words that name this phase in a message.
    pub open spec fn label(self) -> Seq<char> {
        match self {
            ErrorPhase::CaptureStart => "capture start"@,
            ErrorPhase::MidRecording => "recording"@,
            ErrorPhase::Finalize => "finalize"@,
        }
    }

    /// The words that name this phase in a message.
    pub fn describe(&self) -> (text: &'static str)
        ensures
            text@ == self.label(),
    {
        match self {
            ErrorPhase::CaptureStart => "capture start",
            ErrorPhase::MidRecording => "recording",
            ErrorPhase::Finalize => "finalize",
        }
    }
}

impl RecordingError {
    /// The text of this error: the phase, `" failed: "`, and the cause.
    pub open spec fn text(self) -> Seq<char> {
        self.phase.label() + " failed: "@ + self.cause@
    }

    /// The text of this error, for a log line or an error reply.
    pub fn message(&self) -> (text: String)
        ensures
            text@ == self.text(),
    {
        let head = String::from_str(self.phase.describe());
        let head = head.concat(" failed: ");
        head.concat(self.cause.as_str())
    }
}

impl CommandError {
    /// The text of this error.
    pub open spec fn text(self) -> Seq<char> {
        match self {
            CommandError::NotRecording => "Recording is not running"@,
            CommandError::NotPaused => "Recording is not paused"@,
            CommandError::NoActiveRecording => "No active recording"@,
        }
    }

    /// The text of this error, for a log line or an error reply.
    pub fn message(&self) -> (text: String)
        ensures
            text@ == self.text(),
    {
        match self {
            CommandError::NotRecording => String::from_str("Recording is not running"),
            CommandError::NotPaused => String::from_str("Recording is not paused"),
            CommandError::NoActiveRecording => String::from_str("No active recording"),
        }
    }
}

impl BindingError {
    /// An error that blames the caller's arguments, with `reason` as its text.
    pub fn invalid_arg(reason: &str) -> (error: BindingError)
        ensures
            error.status == Status::InvalidArg,
            error.reason@ == reason@,
    {
        BindingError { status: Status::InvalidArg, reason: String::from_str(reason) }
    }

    /// An error that reports a failed operation: `context`, then `": "`, then
    /// `cause`.
    pub fn failure(context: &str, cause: &str) -> (error: BindingError)
        ensures
            error.status == Status::GenericFailure,
            error.reason@ == context@ + ": "@ + cause@,
    {
        let reason = String::from_str(context);
        let reason = reason.concat(": ");
        let reason = reason.concat(cause);
        BindingError { status: Status::GenericFailure, reason }
    }

    /// An error that reports a failed operation with a fixed text.
    pub fn generic(reason: &str) -> (error: BindingError)
        ensures
            error.status == Status::GenericFailure,
            error.reason@ == reason@,
    {
        BindingError { status: Status::GenericFailure, reason: String::from_str(reason) }
    }
}

} // verus!
