use cap_recorder::actor::{
    Command, CompletedRecording, Effect, Event, Outcome, Reply, SessionState,
};
use cap_recorder::config::{
    AudioSourceRef, CaptureTarget, OptionalFeeds, RecordingBaseInputs, SourceKind,
};
use cap_recorder::devices::{Device, DeviceLedger};
use cap_recorder::error::{CommandError, ErrorPhase, RecordingError};
use cap_recorder::handle::SessionHandle;
use cap_recorder::pipeline::{Frame, Offer, Valve};
use cap_recorder::session::{spawn, CompletionSignal, Session, QUEUE_CAPACITY, STALL_GRACE};

fn screen_zero() -> RecordingBaseInputs {
    RecordingBaseInputs {
        capture_target: CaptureTarget::Screen { id: 0 },
        capture_system_audio: false,
        mic_feed: None,
    }
}

fn start(path: &str) -> (SessionHandle, Session, DeviceLedger) {
    let mut ledger = DeviceLedger::new();
    let (handle, session) = spawn(
        String::from("rec-1"),
        String::from(path),
        screen_zero(),
        OptionalFeeds::none(),
        &mut ledger,
        Ok(()),
    )
    .unwrap();
    (handle, session, ledger)
}

fn frame(timestamp: u64) -> Frame {
    Frame { timestamp, data: vec![1, 2, 3] }
}

#[test]
fn spawn_then_stop_completes_at_the_output_path() {
    let (mut handle, mut session, mut ledger) = start("/tmp/demo.cap");
    assert_eq!(session.state(), SessionState::Recording);
    assert_eq!(session.recording_id(), "rec-1");
    assert_eq!(session.sources(), &vec![SourceKind::Screen]);
    assert_eq!(session.inputs(), screen_zero());

    let command = handle.stop().unwrap();
    assert_eq!(command, Command::Stop);
    let delivery = session.deliver(Event::Command(command), 10, &mut ledger);
    assert_eq!(delivery.reply, Reply::Pending);
    assert_eq!(delivery.effect, Effect::DrainAndFinalize);
    assert!(delivery.flushed.is_empty());
    assert_eq!(session.state(), SessionState::Stopping);
    assert_eq!(session.completion(), None);

    let delivery = session.deliver(Event::Finalized, 11, &mut ledger);
    let completed = CompletedRecording { project_path: String::from("/tmp/demo.cap") };
    assert_eq!(delivery.reply, Reply::Stopped(completed.clone()));
    assert_eq!(session.state(), SessionState::Completed);
    assert_eq!(session.completion(), Some(Outcome::Completed(completed)));
    assert_eq!(session.completion(), None);
}

#[test]
fn a_second_pause_is_misuse() {
    let (handle, mut session, mut ledger) = start("/tmp/demo.cap");
    let first = session.deliver(Event::Command(handle.pause().unwrap()), 5, &mut ledger);
    assert_eq!(first.reply, Reply::Done);
    assert_eq!(first.effect, Effect::PauseForwarding);
    assert_eq!(session.state(), SessionState::Paused);
    let second = session.deliver(Event::Command(handle.pause().unwrap()), 6, &mut ledger);
    assert_eq!(second.reply, Reply::Rejected(CommandError::NotRecording));
    assert_eq!(second.effect, Effect::Nothing);
    assert_eq!(session.state(), SessionState::Paused);
    assert_eq!(session.valve(), Valve::Paused);
}

#[test]
fn resume_while_recording_is_misuse_and_changes_nothing() {
    let (handle, mut session, mut ledger) = start("/tmp/demo.cap");
    let delivery = session.deliver(Event::Command(handle.resume().unwrap()), 5, &mut ledger);
    assert_eq!(delivery.reply, Reply::Rejected(CommandError::NotPaused));
    assert_eq!(session.state(), SessionState::Recording);
    assert_eq!(session.valve(), Valve::Open);
}

#[test]
fn stop_after_cancel_finds_no_recording() {
    let (mut handle, mut session, mut ledger) = start("/tmp/demo.cap");
    let cancel = handle.cancel().unwrap();
    let delivery = session.deliver(Event::Command(cancel), 3, &mut ledger);
    assert_eq!(delivery.reply, Reply::Done);
    assert_eq!(delivery.effect, Effect::Abort);
    assert_eq!(session.state(), SessionState::Cancelled);

    assert_eq!(handle.stop(), Err(CommandError::NoActiveRecording));
    assert!(!handle.is_attached());

    let late = session.deliver(Event::Command(Command::Stop), 4, &mut ledger);
    assert_eq!(late.reply, Reply::Rejected(CommandError::NoActiveRecording));
    assert_eq!(session.state(), SessionState::Cancelled);
    assert_eq!(session.completion(), Some(Outcome::Cancelled));
    assert_eq!(session.completion(), None);
}

#[test]
fn stop_twice_on_one_handle() {
    let (mut handle, mut session, mut ledger) = start("/tmp/twice.cap");
    let first = handle.stop();
    assert_eq!(first, Ok(Command::Stop));
    let second = handle.stop();
    assert_eq!(second, Err(CommandError::NoActiveRecording));
    assert_eq!(first, Ok(Command::Stop));
    session.deliver(Event::Command(Command::Stop), 1, &mut ledger);
    let delivery = session.deliver(Event::Finalized, 2, &mut ledger);
    assert_eq!(
        delivery.reply,
        Reply::Stopped(CompletedRecording { project_path: String::from("/tmp/twice.cap") })
    );
}

#[test]
fn a_spent_handle_refuses_everything() {
    let mut handle = SessionHandle::attach(String::from("rec-9"));
    assert!(handle.is_attached());
    assert_eq!(handle.recording_id(), Some(&String::from("rec-9")));
    assert_eq!(handle.pause(), Ok(Command::Pause));
    assert_eq!(handle.resume(), Ok(Command::Resume));
    assert_eq!(handle.send(Command::Pause), Ok(Command::Pause));
    assert!(handle.is_attached());
    assert_eq!(handle.cancel(), Ok(Command::Cancel));
    assert!(!handle.is_attached());
    assert_eq!(handle.recording_id(), None);
    assert_eq!(handle.pause(), Err(CommandError::NoActiveRecording));
    assert_eq!(handle.resume(), Err(CommandError::NoActiveRecording));
    assert_eq!(handle.cancel(), Err(CommandError::NoActiveRecording));
    assert_eq!(handle.stop(), Err(CommandError::NoActiveRecording));
    assert_eq!(handle.send(Command::Resume), Err(CommandError::NoActiveRecording));
}

#[test]
fn a_failed_start_returns_no_handle() {
    let mut ledger = DeviceLedger::new();
    let out = spawn(
        String::from("rec-2"),
        String::from("/tmp/x.cap"),
        screen_zero(),
        OptionalFeeds::none(),
        &mut ledger,
        Err(String::from("permission denied")),
    );
    assert!(!ledger.holds(Device::Screen { id: 0 }));
    match out {
        Ok(_) => panic!("a session was spawned"),
        Err(error) => assert_eq!(
            error,
            RecordingError {
                phase: ErrorPhase::CaptureStart,
                cause: String::from("permission denied"),
            }
        ),
    }
}

#[test]
fn a_device_failure_fails_the_session_and_tears_it_down() {
    let (handle, mut session, mut ledger) = start("/tmp/demo.cap");
    assert_eq!(session.offer(0, frame(1), 0, &mut ledger).verdict, Offer::Accepted);
    let delivery = session.deliver(Event::Failure { cause: String::from("unplugged") }, 9, &mut ledger);
    assert_eq!(delivery.reply, Reply::Silent);
    assert_eq!(delivery.effect, Effect::Abort);
    assert!(delivery.flushed.is_empty());
    assert_eq!(session.state(), SessionState::Failed);
    assert_eq!(session.valve(), Valve::Closed);
    assert_eq!(session.offer(0, frame(2), 0, &mut ledger).verdict, Offer::Closed);
    assert_eq!(session.forward(), None);

    let racing = session.deliver(Event::Command(handle.pause().unwrap()), 10, &mut ledger);
    assert_eq!(racing.reply, Reply::Rejected(CommandError::NoActiveRecording));
    assert_eq!(
        session.completion(),
        Some(Outcome::Failed(RecordingError {
            phase: ErrorPhase::MidRecording,
            cause: String::from("unplugged"),
        }))
    );
}

#[test]
fn a_failure_while_stopping_answers_the_waiting_stop() {
    let (mut handle, mut session, mut ledger) = start("/tmp/demo.cap");
    session.deliver(Event::Command(handle.stop().unwrap()), 1, &mut ledger);
    let delivery = session.deliver(Event::Failure { cause: String::from("disk full") }, 2, &mut ledger);
    let error = RecordingError { phase: ErrorPhase::Finalize, cause: String::from("disk full") };
    assert_eq!(delivery.reply, Reply::StopFailed(error.clone()));
    assert_eq!(session.completion(), Some(Outcome::Failed(error)));
    let late = session.deliver(Event::Finalized, 3, &mut ledger);
    assert_eq!(late.reply, Reply::Silent);
    assert_eq!(session.state(), SessionState::Failed);
}

#[test]
fn nothing_is_muxed_from_a_pause() {
    let inputs = RecordingBaseInputs {
        capture_target: CaptureTarget::Window { id: 3 },
        capture_system_audio: true,
        mic_feed: Some(AudioSourceRef { device: 0 }),
    };
    let mut ledger = DeviceLedger::new();
    let (mut handle, mut session) = spawn(
        String::from("rec-3"),
        String::from("/tmp/p.cap"),
        inputs,
        OptionalFeeds::none(),
        &mut ledger,
        Ok(()),
    )
    .unwrap();
    assert_eq!(
        session.devices(),
        &vec![Device::Window { id: 3 }, Device::SystemAudio, Device::Microphone { device: 0 }]
    );
    assert_eq!(
        session.sources(),
        &vec![SourceKind::Window, SourceKind::SystemAudio, SourceKind::Microphone]
    );
    assert_eq!(session.producers_to_hold(), vec![0]);
    assert_eq!(session.offer(0, frame(10), 0, &mut ledger).verdict, Offer::Accepted);
    assert_eq!(session.offer(1, frame(12), 0, &mut ledger).verdict, Offer::Accepted);
    assert_eq!(session.forward(), None);
    assert_eq!(session.offer(2, frame(11), 0, &mut ledger).verdict, Offer::Accepted);
    assert_eq!(session.forward().map(|f| f.frame.timestamp), Some(10));
    assert_eq!(session.forward(), None);

    session.deliver(Event::Command(handle.pause().unwrap()), 20, &mut ledger);
    for source in 0..3 {
        assert_eq!(session.offer(source, frame(25), 0, &mut ledger).verdict, Offer::Discarded);
        assert_eq!(session.forward(), None);
    }
    session.deliver(Event::Command(handle.resume().unwrap()), 50, &mut ledger);
    assert_eq!(session.offer(2, frame(30), 0, &mut ledger).verdict, Offer::Stale);
    assert_eq!(session.offer(2, frame(55), 0, &mut ledger).verdict, Offer::Accepted);
    assert_eq!(session.offer(0, frame(56), 0, &mut ledger).verdict, Offer::Accepted);
    assert_eq!(session.forward().map(|f| (f.source, f.frame.timestamp)), Some((2, 11)));

    let delivery = session.deliver(Event::Command(handle.stop().unwrap()), 60, &mut ledger);
    let flushed: Vec<(usize, u64)> =
        delivery.flushed.iter().map(|f| (f.source, f.frame.timestamp)).collect();
    assert_eq!(flushed, vec![(1, 12), (2, 25), (0, 26)]);
    assert_eq!(session.valve(), Valve::Closed);
}

#[test]
fn cancel_discards_what_is_queued() {
    let (mut handle, mut session, mut ledger) = start("/tmp/demo.cap");
    assert_eq!(session.offer(0, frame(1), 0, &mut ledger).verdict, Offer::Accepted);
    assert_eq!(session.offer(0, frame(2), 0, &mut ledger).verdict, Offer::Accepted);
    let delivery = session.deliver(Event::Command(handle.cancel().unwrap()), 3, &mut ledger);
    assert!(delivery.flushed.is_empty());
    assert_eq!(session.forward(), None);
    assert_eq!(session.valve(), Valve::Closed);
}

#[test]
fn a_stalled_sink_fails_the_session() {
    let (handle, mut session, mut ledger) = start("/tmp/demo.cap");
    for i in 0..QUEUE_CAPACITY {
        assert_eq!(session.offer(0, frame(i as u64), 1, &mut ledger).verdict, Offer::Accepted);
    }
    for _ in 0..STALL_GRACE {
        let offered = session.offer(0, frame(100), 2, &mut ledger);
        assert_eq!(offered.verdict, Offer::Full(frame(100)));
        assert_eq!(offered.failure, None);
        assert_eq!(session.state(), SessionState::Recording);
    }
    let offered = session.offer(0, frame(100), 3, &mut ledger);
    assert_eq!(offered.verdict, Offer::Stalled(frame(100)));
    let cause = String::from("sink stalled: a capture queue stayed full");
    let (event, delivery) = offered.failure.unwrap();
    assert_eq!(event, Event::Failure { cause: cause.clone() });
    assert_eq!(delivery.reply, Reply::Silent);
    assert_eq!(delivery.effect, Effect::Abort);
    assert!(delivery.flushed.is_empty());
    assert_eq!(session.state(), SessionState::Failed);
    assert_eq!(session.valve(), Valve::Closed);
    assert!(!ledger.holds(Device::Screen { id: 0 }));
    assert_eq!(
        session.completion(),
        Some(Outcome::Failed(RecordingError { phase: ErrorPhase::MidRecording, cause }))
    );
    let late = session.deliver(Event::Command(handle.pause().unwrap()), 4, &mut ledger);
    assert_eq!(late.reply, Reply::Rejected(CommandError::NoActiveRecording));
    assert_eq!(session.offer(0, frame(101), 5, &mut ledger).verdict, Offer::Closed);
}

#[test]
fn the_signal_fires_once() {
    let mut signal = CompletionSignal::new();
    assert!(!signal.has_fired());
    assert_eq!(signal.take(), None);
    signal.fire(Outcome::Cancelled);
    assert!(signal.has_fired());
    signal.fire(Outcome::Completed(CompletedRecording { project_path: String::from("/x") }));
    assert_eq!(signal.take(), Some(Outcome::Cancelled));
    assert_eq!(signal.take(), None);
    assert!(signal.has_fired());
    signal.fire(Outcome::Cancelled);
    assert_eq!(signal.take(), None);
}

#[test]
fn a_device_is_held_by_one_session_at_a_time() {
    let (_handle, session, mut ledger) = start("/tmp/one.cap");
    assert_eq!(session.devices(), &vec![Device::Screen { id: 0 }]);
    assert!(ledger.holds(Device::Screen { id: 0 }));
    let second = spawn(
        String::from("rec-2"),
        String::from("/tmp/two.cap"),
        screen_zero(),
        OptionalFeeds::none(),
        &mut ledger,
        Ok(()),
    );
    match second {
        Ok(_) => panic!("two sessions hold one screen"),
        Err(error) => assert_eq!(
            error,
            RecordingError {
                phase: ErrorPhase::CaptureStart,
                cause: String::from("capture device is already in use"),
            }
        ),
    }
    assert!(ledger.holds(Device::Screen { id: 0 }));
}

#[test]
fn a_failed_session_gives_its_devices_back() {
    let (_handle, mut session, mut ledger) = start("/tmp/one.cap");
    assert!(ledger.holds(Device::Screen { id: 0 }));
    session.deliver(Event::Failure { cause: String::from("unplugged") }, 5, &mut ledger);
    assert_eq!(session.state(), SessionState::Failed);
    assert!(!ledger.holds(Device::Screen { id: 0 }));
    let again = spawn(
        String::from("rec-2"),
        String::from("/tmp/two.cap"),
        screen_zero(),
        OptionalFeeds::none(),
        &mut ledger,
        Ok(()),
    );
    assert!(again.is_ok());
    assert!(ledger.holds(Device::Screen { id: 0 }));
}

#[test]
fn devices_are_held_until_the_session_ends() {
    let (mut handle, mut session, mut ledger) = start("/tmp/one.cap");
    session.deliver(Event::Command(handle.pause().unwrap()), 1, &mut ledger);
    assert!(ledger.holds(Device::Screen { id: 0 }));
    session.deliver(Event::Command(handle.stop().unwrap()), 2, &mut ledger);
    assert!(ledger.holds(Device::Screen { id: 0 }));
    session.deliver(Event::Finalized, 3, &mut ledger);
    assert!(!ledger.holds(Device::Screen { id: 0 }));

    let (mut handle, mut session, mut ledger) = start("/tmp/one.cap");
    session.deliver(Event::Command(handle.cancel().unwrap()), 1, &mut ledger);
    assert!(!ledger.holds(Device::Screen { id: 0 }));
}

#[test]
fn a_failed_start_leaves_the_ledger_as_it_was() {
    let mut ledger = DeviceLedger::new();
    assert_eq!(ledger.acquire(&vec![Device::SystemAudio]), Ok(()));
    let out = spawn(
        String::from("rec-5"),
        String::from("/tmp/five.cap"),
        screen_zero(),
        OptionalFeeds::none(),
        &mut ledger,
        Err(String::from("no signal")),
    );
    assert!(out.is_err());
    assert!(ledger.holds(Device::SystemAudio));
    assert!(!ledger.holds(Device::Screen { id: 0 }));
}
