use cap_recorder::config::{
    capture_sources, held_while_paused, AudioSourceRef, CameraFeedRef, CaptureTarget, OptionalFeeds, PausePolicy,
    RecordingBaseInputs, RecordingConfig, SourceKind,
};
use cap_recorder::error::{BindingError, CommandError, ErrorPhase, RecordingError, Status};

fn config(screen_id: Option<u32>, window_id: Option<u32>, audio: Option<bool>) -> RecordingConfig {
    RecordingConfig {
        output_path: String::from("/tmp/out.cap"),
        screen_id,
        window_id,
        capture_system_audio: audio,
        fps: Some(30),
    }
}

#[test]
fn screen_id_selects_a_screen() {
    assert_eq!(config(Some(2), None, None).capture_target(), Ok(CaptureTarget::Screen { id: 2 }));
}

#[test]
fn window_id_selects_a_window() {
    assert_eq!(config(None, Some(9), None).capture_target(), Ok(CaptureTarget::Window { id: 9 }));
}

#[test]
fn screen_wins_over_window() {
    assert_eq!(
        config(Some(1), Some(9), None).capture_target(),
        Ok(CaptureTarget::Screen { id: 1 })
    );
}

#[test]
fn no_target_is_an_invalid_argument() {
    let error = config(None, None, Some(true)).capture_target().unwrap_err();
    assert_eq!(error.status, Status::InvalidArg);
    assert_eq!(error.reason, "Must specify screen_id or window_id");
    let error = config(None, None, None).base_inputs().unwrap_err();
    assert_eq!(error.status, Status::InvalidArg);
    assert_eq!(error.reason, "Must specify screen_id or window_id");
}

#[test]
fn system_audio_is_off_unless_asked_for() {
    let inputs = config(Some(0), None, None).base_inputs().unwrap();
    assert_eq!(
        inputs,
        RecordingBaseInputs {
            capture_target: CaptureTarget::Screen { id: 0 },
            capture_system_audio: false,
            mic_feed: None,
        }
    );
    assert!(!config(Some(0), None, Some(false)).base_inputs().unwrap().capture_system_audio);
    assert!(config(Some(0), None, Some(true)).base_inputs().unwrap().capture_system_audio);
}

#[test]
fn sources_follow_the_inputs() {
    let plain = RecordingBaseInputs {
        capture_target: CaptureTarget::Screen { id: 0 },
        capture_system_audio: false,
        mic_feed: None,
    };
    assert_eq!(capture_sources(&plain, &OptionalFeeds::none()), vec![SourceKind::Screen]);

    let full = RecordingBaseInputs {
        capture_target: CaptureTarget::Window { id: 4 },
        capture_system_audio: true,
        mic_feed: Some(AudioSourceRef { device: 1 }),
    };
    let feeds =
        OptionalFeeds { camera_feed: Some(CameraFeedRef { device: 0 }), custom_cursor_capture: true };
    assert_eq!(
        capture_sources(&full, &feeds),
        vec![
            SourceKind::Window,
            SourceKind::SystemAudio,
            SourceKind::Microphone,
            SourceKind::Camera
        ]
    );

    let mic_only = RecordingBaseInputs {
        capture_target: CaptureTarget::Screen { id: 1 },
        capture_system_audio: false,
        mic_feed: Some(AudioSourceRef { device: 3 }),
    };
    assert_eq!(
        capture_sources(&mic_only, &OptionalFeeds::none()),
        vec![SourceKind::Screen, SourceKind::Microphone]
    );
}

#[test]
fn video_sources_pause_and_the_others_discard() {
    assert_eq!(SourceKind::Screen.pause_policy(), PausePolicy::PauseProducer);
    assert_eq!(SourceKind::Window.pause_policy(), PausePolicy::PauseProducer);
    assert_eq!(SourceKind::Microphone.pause_policy(), PausePolicy::DiscardFrames);
    assert_eq!(SourceKind::SystemAudio.pause_policy(), PausePolicy::DiscardFrames);
    assert_eq!(SourceKind::Camera.pause_policy(), PausePolicy::DiscardFrames);
    assert_eq!(CaptureTarget::Screen { id: 5 }.source_kind(), SourceKind::Screen);
    assert_eq!(CaptureTarget::Window { id: 5 }.source_kind(), SourceKind::Window);
}

#[test]
fn optional_feeds_default_to_nothing() {
    assert_eq!(
        OptionalFeeds::none(),
        OptionalFeeds { camera_feed: None, custom_cursor_capture: false }
    );
}

#[test]
fn recording_errors_name_phase_and_cause() {
    let error = RecordingError { phase: ErrorPhase::CaptureStart, cause: String::from("no mic") };
    assert_eq!(error.message(), "capture start failed: no mic");
    let error = RecordingError { phase: ErrorPhase::MidRecording, cause: String::from("unplugged") };
    assert_eq!(error.message(), "recording failed: unplugged");
    let error = RecordingError { phase: ErrorPhase::Finalize, cause: String::from("disk full") };
    assert_eq!(error.message(), "finalize failed: disk full");
    assert_eq!(ErrorPhase::Finalize.describe(), "finalize");
}

#[test]
fn command_errors_have_their_text() {
    assert_eq!(CommandError::NoActiveRecording.message(), "No active recording");
    assert_eq!(CommandError::NotRecording.message(), "Recording is not running");
    assert_eq!(CommandError::NotPaused.message(), "Recording is not paused");
}

#[test]
fn binding_errors_are_built_from_their_parts() {
    assert_eq!(
        BindingError::invalid_arg("bad"),
        BindingError { status: Status::InvalidArg, reason: String::from("bad") }
    );
    assert_eq!(
        BindingError::failure("Failed to pause", "busy"),
        BindingError { status: Status::GenericFailure, reason: String::from("Failed to pause: busy") }
    );
    assert_eq!(
        BindingError::generic("late"),
        BindingError { status: Status::GenericFailure, reason: String::from("late") }
    );
}

#[test]
fn only_video_producers_are_held_while_paused() {
    assert_eq!(held_while_paused(&vec![SourceKind::Screen]), vec![0]);
    assert_eq!(
        held_while_paused(&vec![
            SourceKind::Microphone,
            SourceKind::Window,
            SourceKind::SystemAudio,
            SourceKind::Camera,
            SourceKind::Screen,
        ]),
        vec![1, 4]
    );
    assert!(held_while_paused(&vec![SourceKind::Microphone, SourceKind::Camera]).is_empty());
    assert!(held_while_paused(&Vec::new()).is_empty());
}
