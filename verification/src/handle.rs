//! The session handle: what a caller holds to command a session.
//!
//! A handle holds no state of the pipeline, only its tie to the session.
//! Each method turns a call into the command to put in the actor's inbox, or
//! refuses at once. `stop` and `cancel` give the tie up, so that nothing can
//! be sent after them.

use crate::actor::Command;
use crate::error::CommandError;
use vstd::prelude::*;

verus! {

/// The caller's end of a session.
pub struct SessionHandle {
    session: Option<String>,
}

/// Whether a command ends the handle's tie to its session.
pub open spec fn releases(command: Command) -> bool {
    command == Command::Stop || command == Command::Cancel
}

/// What a handle answers to a call: the command to send if it is tied to a
/// session, else a refusal.
pub open spec fn request(attached: bool, command: Command) -> Result<Command, CommandError> {
    if attached {
        Ok(command)
    } else {
        Err(CommandError::NoActiveRecording)
    }
}

/// Whether a handle is still tied to a session after a call.
pub open spec fn attached_after(attached: bool, command: Command) -> bool {
    attached && !releases(command)
}

impl SessionHandle {
    /// The id of the session this handle is tied to, if it still is.
    pub closed spec fn session(&self) -> Option<String> {
        self.session
    }

    /// Whether this handle is still tied to a session.
    pub open spec fn attached(&self) -> bool {
        self.session() is Some
    }

    /// A handle tied to the session with this recording id.
    pub fn attach(recording_id: String) -> (handle: SessionHandle)
        ensures
            handle.session() == Some(recording_id),
    {
        SessionHandle { session: Some(recording_id) }
    }

    /// Whether this handle is still tied to a session.
    pub fn is_attached(&self) -> (b: bool)
        ensures
            b == self.attached(),
    {
        self.session.is_some()
    }

    /// The id of the session this handle is tied to, if it still is.
    pub fn recording_id(&self) -> (id: Option<&String>)
        ensures
            match id {
                Some(s) => self.session() == Some(*s),
                None => self.session() is None,
            },
    {
        self.session.as_ref()
    }

    /// Turns a call into the command to send. `stop` and `cancel` give up
    /// the tie to the session and leave the handle spent; `pause` and
    /// `resume` leave it as it is. A spent handle refuses every call.
    pub fn send(&mut self, command: Command) -> (out: Result<Command, CommandError>)
        ensures
            out == request(old(self).attached(), command),
            final(self).attached() == attached_after(old(self).attached(), command),
            final(self).attached() ==> final(self).session() == old(self).session(),
    {
        if self.session.is_none() {
            return Err(CommandError::NoActiveRecording);
        }
        match command {
            Command::Stop | Command::Cancel => {
                let _ = self.session.take();
            },
            _ => {},
        }
        Ok(command)
    }

    /// Asks the session to pause.
    pub fn pause(&self) -> (out: Result<Command, CommandError>)
        ensures
            out == request(self.attached(), Command::Pause),
    {
        if self.session.is_some() {
            Ok(Command::Pause)
        } else {
            Err(CommandError::NoActiveRecording)
        }
    }

    /// Asks the session to resume.
    pub fn resume(&self) -> (out: Result<Command, CommandError>)
        ensures
            out == request(self.attached(), Command::Resume),
    {
        if self.session.is_some() {
            Ok(Command::Resume)
        } else {
            Err(CommandError::NoActiveRecording)
        }
    }

    /// Asks the session to stop and finalize, and spends the handle.
    pub fn stop(&mut self) -> (out: Result<Command, CommandError>)
        ensures
            out == request(old(self).attached(), Command::Stop),
            !final(self).attached(),
    {
        self.send(Command::Stop)
    }

    /// Asks the session to cancel, and spends the handle.
    pub fn cancel(&mut self) -> (out: Result<Command, CommandError>)
        ensures
            out == request(old(self).attached(), Command::Cancel),
            !final(self).attached(),
    {
        self.send(Command::Cancel)
    }
}

/// After `stop` or `cancel` a handle refuses whatever is called on it next
/// for want of an active recording, and the refused call changes nothing: a
/// second `stop` sends no command, so the answer to the first stands.
pub proof fn law_released_handle_refuses(attached: bool, first: Command, second: Command)
    requires
        releases(first),
    ensures
        request(attached_after(attached, first), second) == Err::<Command, CommandError>(
            CommandError::NoActiveRecording,
        ),
        attached_after(attached_after(attached, first), second) == attached_after(attached, first),
{
}

} // verus!
