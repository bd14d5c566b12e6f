use cap_recorder::actor::{Command, CompletedRecording, Event, Outcome, Reply};
use cap_recorder::config::{CaptureTarget, OptionalFeeds, RecordingBaseInputs, RecordingConfig};
use cap_recorder::devices::DeviceLedger;
use cap_recorder::error::{BindingError, CommandError, ErrorPhase, RecordingError, Status};
use cap_recorder::handle::SessionHandle;
use cap_recorder::identity::{has_generated_form, SessionIdentity};
use cap_recorder::recorder::{
    command_answer, list_available_screens, list_available_windows, plan_start, stop_outcome,
    CapRecorder, CaptureScreen, CaptureWindow, ScreenInfo, SpawnRequest, StopOutcome, WindowInfo,
    STOP_TIMEOUT_SECS,
};

fn config(screen_id: Option<u32>, window_id: Option<u32>) -> RecordingConfig {
    RecordingConfig {
        output_path: String::from("/tmp/rec.cap"),
        screen_id,
        window_id,
        capture_system_audio: None,
        fps: None,
    }
}

fn failure(reason: &str) -> BindingError {
    BindingError { status: Status::GenericFailure, reason: String::from(reason) }
}

#[test]
fn a_new_recorder_records_nothing() {
    let recorder = CapRecorder::new();
    assert!(!recorder.is_recording());
}

#[test]
fn start_plans_a_session_for_the_config() {
    let recorder = CapRecorder::new();
    let request = recorder.start_recording(config(Some(0), None)).unwrap();
    assert_eq!(request.identity.output_path, "/tmp/rec.cap");
    assert!(has_generated_form(&request.identity.recording_id));
    assert_eq!(
        request.base_inputs,
        RecordingBaseInputs {
            capture_target: CaptureTarget::Screen { id: 0 },
            capture_system_audio: false,
            mic_feed: None,
        }
    );
    assert_eq!(request.feeds, OptionalFeeds { camera_feed: None, custom_cursor_capture: false });
    assert!(!recorder.is_recording());
}

#[test]
fn start_without_a_target_is_refused() {
    let recorder = CapRecorder::new();
    assert_eq!(
        recorder.start_recording(config(None, None)),
        Err(BindingError {
            status: Status::InvalidArg,
            reason: String::from("Must specify screen_id or window_id"),
        })
    );
}

#[test]
fn plan_start_keeps_the_given_id() {
    let mut wanted = config(None, Some(12));
    wanted.capture_system_audio = Some(true);
    assert_eq!(
        plan_start(wanted, String::from("my-id")),
        Ok(SpawnRequest {
            identity: SessionIdentity {
                recording_id: String::from("my-id"),
                output_path: String::from("/tmp/rec.cap"),
            },
            base_inputs: RecordingBaseInputs {
                capture_target: CaptureTarget::Window { id: 12 },
                capture_system_audio: true,
                mic_feed: None,
            },
            feeds: OptionalFeeds::none(),
        })
    );
    assert_eq!(
        plan_start(config(None, None), String::from("my-id")),
        Err(BindingError {
            status: Status::InvalidArg,
            reason: String::from("Must specify screen_id or window_id"),
        })
    );
}

#[test]
fn generated_ids_differ_and_have_the_generated_form() {
    let a = SessionIdentity::generate(String::from("/a"));
    let b = SessionIdentity::generate(String::from("/b"));
    assert_eq!(a.output_path, "/a");
    assert_eq!(b.output_path, "/b");
    assert_eq!(a.recording_id.len(), 36);
    assert!(has_generated_form(&a.recording_id));
    assert!(has_generated_form(&b.recording_id));
    assert_ne!(a.recording_id, b.recording_id);
}

#[test]
fn the_generated_form_is_held_to_every_character() {
    assert!(has_generated_form("67e55044-10b1-426f-9247-bb680e5fe0c8"));
    assert!(has_generated_form("00000000-0000-4000-8000-000000000000"));
    assert!(has_generated_form("ffffffff-ffff-4fff-bfff-ffffffffffff"));
    assert!(!has_generated_form(""));
    assert!(!has_generated_form("67e55044-10b1-426f-9247-bb680e5fe0c"));
    assert!(!has_generated_form("67e55044-10b1-426f-9247-bb680e5fe0c8a"));
    assert!(!has_generated_form("67E55044-10B1-426F-9247-BB680E5FE0C8"));
    assert!(!has_generated_form("67e5504410b1-426f-9247-bb680e5fe0c8-"));
    assert!(!has_generated_form("67e55044-10b1-126f-9247-bb680e5fe0c8"));
    assert!(!has_generated_form("67e55044-10b1-426f-c247-bb680e5fe0c8"));
    assert!(!has_generated_form("67e55044-10b1-426f-7247-bb680e5fe0c8"));
    assert!(!has_generated_form("67e55044-10b1-426f-9247-bb680e5fe0g8"));
    assert!(!has_generated_form("67e55044_10b1-426f-9247-bb680e5fe0c8"));
    assert!(!has_generated_form("67e55044-10b1-426f-9247-bb680e5fe0\u{e9}8"));
}

#[test]
fn identities_keep_the_id_they_are_given() {
    assert_eq!(
        SessionIdentity::new(String::from("abc"), String::from("/out")),
        SessionIdentity { recording_id: String::from("abc"), output_path: String::from("/out") }
    );
}

#[test]
fn a_spawned_session_takes_the_slot() {
    let mut recorder = CapRecorder::new();
    let mut ledger = DeviceLedger::new();
    let request = recorder.start_recording(config(Some(0), None)).unwrap();
    let id = request.identity.recording_id.clone();
    let (handle, session) = request.spawn(&mut ledger, Ok(())).unwrap();
    assert_eq!(session.recording_id(), &id);
    assert_eq!(handle.recording_id(), Some(&id));
    assert_eq!(recorder.recording_started(Ok(handle)), Ok(()));
    assert!(recorder.is_recording());
}

#[test]
fn a_failed_spawn_is_reported_and_leaves_the_slot() {
    let mut recorder = CapRecorder::new();
    assert_eq!(
        recorder.recording_started(Err(String::from("no such screen"))),
        Err(failure("Failed to start recording: no such screen"))
    );
    assert!(!recorder.is_recording());
    assert_eq!(recorder.recording_started(Ok(SessionHandle::attach(String::from("a")))), Ok(()));
    assert_eq!(
        recorder.recording_started(Err(String::from("busy"))),
        Err(failure("Failed to start recording: busy"))
    );
    assert!(recorder.is_recording());
}

#[test]
fn stop_without_a_recording_is_an_invalid_argument() {
    let mut recorder = CapRecorder::new();
    assert_eq!(
        recorder.stop_recording(),
        Err(BindingError { status: Status::InvalidArg, reason: String::from("No active recording") })
    );
}

#[test]
fn stop_empties_the_slot() {
    let mut recorder = CapRecorder::new();
    recorder.recording_started(Ok(SessionHandle::attach(String::from("a")))).unwrap();
    assert_eq!(recorder.stop_recording(), Ok(Command::Stop));
    assert!(!recorder.is_recording());
    assert_eq!(
        recorder.stop_recording(),
        Err(BindingError { status: Status::InvalidArg, reason: String::from("No active recording") })
    );
}

#[test]
fn stop_outcomes_become_results() {
    assert_eq!(
        CapRecorder::stop_finished(StopOutcome::Completed(CompletedRecording {
            project_path: String::from("/tmp/rec.cap"),
        })),
        Ok(String::from("/tmp/rec.cap"))
    );
    assert_eq!(
        CapRecorder::stop_finished(StopOutcome::Failed(String::from("disk full"))),
        Err(failure("Failed to stop recording: disk full"))
    );
    assert_eq!(
        CapRecorder::stop_finished(StopOutcome::TimedOut),
        Err(failure("Stop recording timed out after 30 seconds"))
    );
    assert_eq!(STOP_TIMEOUT_SECS, 30);
}

fn no_active_recording() -> BindingError {
    BindingError { status: Status::InvalidArg, reason: String::from("No active recording") }
}

#[test]
fn commands_without_a_recording_are_refused() {
    let mut recorder = CapRecorder::new();
    assert_eq!(recorder.pause_recording(), Err(no_active_recording()));
    assert_eq!(recorder.resume_recording(), Err(no_active_recording()));
    assert_eq!(recorder.cancel_recording(), Err(no_active_recording()));
    assert_eq!(recorder.stop_recording(), Err(no_active_recording()));
    assert_eq!(recorder.pause_recording(), Err(no_active_recording()));
}

#[test]
fn pause_and_resume_keep_the_slot_and_cancel_empties_it() {
    let mut recorder = CapRecorder::new();
    recorder.recording_started(Ok(SessionHandle::attach(String::from("a")))).unwrap();
    assert_eq!(recorder.pause_recording(), Ok(Command::Pause));
    assert_eq!(recorder.resume_recording(), Ok(Command::Resume));
    assert!(recorder.is_recording());
    assert_eq!(recorder.cancel_recording(), Ok(Command::Cancel));
    assert!(!recorder.is_recording());
    assert_eq!(recorder.cancel_recording(), Err(no_active_recording()));
    assert_eq!(recorder.cancel_recording(), Err(no_active_recording()));
}

#[test]
fn commands_after_stop_are_refused_while_the_session_is_stopping() {
    let mut recorder = CapRecorder::new();
    let mut ledger = DeviceLedger::new();
    let request = recorder.start_recording(config(Some(0), None)).unwrap();
    let (handle, mut session) = request.spawn(&mut ledger, Ok(())).unwrap();
    recorder.recording_started(Ok(handle)).unwrap();
    let stop = recorder.stop_recording().unwrap();
    assert_eq!(session.deliver(Event::Command(stop), 1, &mut ledger).reply, Reply::Pending);
    assert_eq!(recorder.pause_recording(), Err(no_active_recording()));
    assert_eq!(recorder.resume_recording(), Err(no_active_recording()));
    assert_eq!(recorder.cancel_recording(), Err(no_active_recording()));
    assert_eq!(recorder.stop_recording(), Err(no_active_recording()));
    let reply = session.deliver(Event::Finalized, 2, &mut ledger).reply;
    assert_eq!(
        stop_outcome(reply),
        Some(StopOutcome::Completed(CompletedRecording {
            project_path: String::from("/tmp/rec.cap")
        }))
    );
}

#[test]
fn a_spent_handle_in_the_slot_is_no_active_recording() {
    let mut spent = SessionHandle::attach(String::from("a"));
    spent.cancel().unwrap();
    let mut recorder = CapRecorder::new();
    recorder.recording_started(Ok(spent)).unwrap();
    assert_eq!(recorder.pause_recording(), Err(no_active_recording()));
    assert_eq!(recorder.resume_recording(), Err(no_active_recording()));
    assert_eq!(recorder.cancel_recording(), Err(no_active_recording()));
    assert!(!recorder.is_recording());

    let mut spent = SessionHandle::attach(String::from("a"));
    spent.stop().unwrap();
    recorder.recording_started(Ok(spent)).unwrap();
    assert_eq!(recorder.stop_recording(), Err(no_active_recording()));
    assert!(!recorder.is_recording());
}

#[test]
fn replies_are_read_as_what_they_answer() {
    let done = CompletedRecording { project_path: String::from("/p") };
    assert_eq!(
        stop_outcome(Reply::Stopped(done.clone())),
        Some(StopOutcome::Completed(done.clone()))
    );
    assert_eq!(
        stop_outcome(Reply::StopFailed(RecordingError {
            phase: ErrorPhase::Finalize,
            cause: String::from("disk full"),
        })),
        Some(StopOutcome::Failed(String::from("finalize failed: disk full")))
    );
    assert_eq!(
        stop_outcome(Reply::Rejected(CommandError::NoActiveRecording)),
        Some(StopOutcome::Failed(String::from("No active recording")))
    );
    assert_eq!(stop_outcome(Reply::Pending), None);
    assert_eq!(stop_outcome(Reply::Done), None);
    assert_eq!(stop_outcome(Reply::Silent), None);

    assert_eq!(command_answer(Reply::Done), Some(Ok(())));
    assert_eq!(
        command_answer(Reply::Rejected(CommandError::NotRecording)),
        Some(Err(String::from("Recording is not running")))
    );
    assert_eq!(
        command_answer(Reply::Rejected(CommandError::NotPaused)),
        Some(Err(String::from("Recording is not paused")))
    );
    assert_eq!(command_answer(Reply::Pending), None);
    assert_eq!(command_answer(Reply::Silent), None);
    assert_eq!(command_answer(Reply::Stopped(done)), None);
}

#[test]
fn a_second_pause_reaches_the_caller_as_an_error() {
    let mut recorder = CapRecorder::new();
    let mut ledger = DeviceLedger::new();
    let request = recorder.start_recording(config(Some(0), None)).unwrap();
    let (handle, mut session) = request.spawn(&mut ledger, Ok(())).unwrap();
    recorder.recording_started(Ok(handle)).unwrap();
    let first = recorder.pause_recording().unwrap();
    let answer = command_answer(session.deliver(Event::Command(first), 1, &mut ledger).reply);
    assert_eq!(CapRecorder::command_finished(Command::Pause, answer.unwrap()), Ok(()));
    let second = recorder.pause_recording().unwrap();
    let answer = command_answer(session.deliver(Event::Command(second), 2, &mut ledger).reply);
    assert_eq!(
        CapRecorder::command_finished(Command::Pause, answer.unwrap()),
        Err(failure("Failed to pause: Recording is not running"))
    );
}

#[test]
fn answers_of_the_session_become_results() {
    assert_eq!(CapRecorder::command_finished(Command::Pause, Ok(())), Ok(()));
    assert_eq!(
        CapRecorder::command_finished(Command::Pause, Err(String::from("x"))),
        Err(failure("Failed to pause: x"))
    );
    assert_eq!(
        CapRecorder::command_finished(Command::Resume, Err(String::from("y"))),
        Err(failure("Failed to resume: y"))
    );
    assert_eq!(
        CapRecorder::command_finished(Command::Cancel, Err(String::from(""))),
        Err(failure("Failed to cancel: "))
    );
    assert_eq!(
        CapRecorder::command_finished(Command::Stop, Err(String::from("z"))),
        Err(failure("Failed to stop recording: z"))
    );
}

#[test]
fn a_recording_from_start_to_stop() {
    let mut recorder = CapRecorder::new();
    let mut ledger = DeviceLedger::new();
    let request = recorder.start_recording(config(Some(0), None)).unwrap();
    let (handle, mut session) = request.spawn(&mut ledger, Ok(())).unwrap();
    recorder.recording_started(Ok(handle)).unwrap();

    let pause = recorder.pause_recording().unwrap();
    assert_eq!(session.deliver(Event::Command(pause), 1, &mut ledger).reply, Reply::Done);
    let resume = recorder.resume_recording().unwrap();
    assert_eq!(session.deliver(Event::Command(resume), 2, &mut ledger).reply, Reply::Done);

    let stop = recorder.stop_recording().unwrap();
    let pending = session.deliver(Event::Command(stop), 3, &mut ledger).reply;
    assert_eq!(stop_outcome(pending), None);
    let outcome = stop_outcome(session.deliver(Event::Finalized, 4, &mut ledger).reply).unwrap();
    assert_eq!(CapRecorder::stop_finished(outcome), Ok(String::from("/tmp/rec.cap")));
    assert!(!recorder.is_recording());
}

#[test]
fn screens_are_listed_in_order() {
    let screens = vec![
        CaptureScreen { id: 1, name: String::from("Built-in"), refresh_rate: 60 },
        CaptureScreen { id: 7, name: String::from("External"), refresh_rate: 144 },
    ];
    assert_eq!(
        list_available_screens(screens),
        vec![
            ScreenInfo { id: 1, name: String::from("Built-in"), refresh_rate: 60 },
            ScreenInfo { id: 7, name: String::from("External"), refresh_rate: 144 },
        ]
    );
    assert!(list_available_screens(Vec::new()).is_empty());
}

#[test]
fn windows_are_listed_with_their_name_as_title() {
    let windows = vec![
        CaptureWindow {
            id: 3,
            owner_name: String::from("Editor"),
            name: String::from("main.rs"),
        },
        CaptureWindow {
            id: 4,
            owner_name: String::from("Browser"),
            name: String::from("Docs"),
        },
    ];
    assert_eq!(
        list_available_windows(windows),
        vec![
            WindowInfo { id: 3, title: String::from("main.rs"), owner_name: String::from("Editor") },
            WindowInfo { id: 4, title: String::from("Docs"), owner_name: String::from("Browser") },
        ]
    );
    assert!(list_available_windows(Vec::new()).is_empty());
}

#[test]
fn a_stop_that_timed_out_is_still_finished_by_the_session() {
    let mut recorder = CapRecorder::new();
    let mut ledger = DeviceLedger::new();
    let request = recorder.start_recording(config(None, Some(2))).unwrap();
    let (handle, mut session) = request.spawn(&mut ledger, Ok(())).unwrap();
    recorder.recording_started(Ok(handle)).unwrap();
    let stop = recorder.stop_recording().unwrap();
    assert_eq!(session.deliver(Event::Command(stop), 1, &mut ledger).reply, Reply::Pending);
    assert_eq!(
        CapRecorder::stop_finished(StopOutcome::TimedOut),
        Err(failure("Stop recording timed out after 30 seconds"))
    );
    assert_eq!(session.completion(), None);
    session.deliver(Event::Finalized, 40, &mut ledger);
    assert_eq!(
        session.completion(),
        Some(Outcome::Completed(CompletedRecording { project_path: String::from("/tmp/rec.cap") }))
    );
}
