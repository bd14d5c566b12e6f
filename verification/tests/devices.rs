use cap_recorder::config::{
    AudioSourceRef, CameraFeedRef, CaptureTarget, OptionalFeeds, RecordingBaseInputs,
};
use cap_recorder::devices::{capture_devices, Device, DeviceLedger};

#[test]
fn devices_follow_the_inputs() {
    let plain = RecordingBaseInputs {
        capture_target: CaptureTarget::Screen { id: 2 },
        capture_system_audio: false,
        mic_feed: None,
    };
    assert_eq!(capture_devices(&plain, &OptionalFeeds::none()), vec![Device::Screen { id: 2 }]);
    let full = RecordingBaseInputs {
        capture_target: CaptureTarget::Window { id: 8 },
        capture_system_audio: true,
        mic_feed: Some(AudioSourceRef { device: 5 }),
    };
    let feeds =
        OptionalFeeds { camera_feed: Some(CameraFeedRef { device: 6 }), custom_cursor_capture: false };
    assert_eq!(
        capture_devices(&full, &feeds),
        vec![
            Device::Window { id: 8 },
            Device::SystemAudio,
            Device::Microphone { device: 5 },
            Device::Camera { device: 6 },
        ]
    );
}

#[test]
fn a_new_ledger_holds_nothing() {
    let ledger = DeviceLedger::new();
    assert!(!ledger.holds(Device::SystemAudio));
    assert!(!ledger.holds(Device::Screen { id: 0 }));
}

#[test]
fn devices_are_taken_together() {
    let mut ledger = DeviceLedger::new();
    let first = vec![Device::Screen { id: 0 }, Device::Microphone { device: 1 }];
    assert_eq!(ledger.acquire(&first), Ok(()));
    assert!(ledger.holds(Device::Screen { id: 0 }));
    assert!(ledger.holds(Device::Microphone { device: 1 }));
    assert!(!ledger.holds(Device::Screen { id: 1 }));
    assert!(!ledger.holds(Device::Window { id: 0 }));
}

#[test]
fn a_busy_device_refuses_the_whole_request() {
    let mut ledger = DeviceLedger::new();
    assert_eq!(ledger.acquire(&vec![Device::Microphone { device: 1 }, Device::SystemAudio]), Ok(()));
    let wanted = vec![
        Device::Screen { id: 0 },
        Device::SystemAudio,
        Device::Microphone { device: 1 },
    ];
    assert_eq!(ledger.acquire(&wanted), Err(Device::SystemAudio));
    assert!(!ledger.holds(Device::Screen { id: 0 }));
    assert!(ledger.holds(Device::SystemAudio));
    assert!(ledger.holds(Device::Microphone { device: 1 }));
}

#[test]
fn released_devices_can_be_taken_again() {
    let mut ledger = DeviceLedger::new();
    let mine = vec![Device::Window { id: 3 }, Device::Camera { device: 0 }];
    let other = vec![Device::SystemAudio];
    assert_eq!(ledger.acquire(&mine), Ok(()));
    assert_eq!(ledger.acquire(&other), Ok(()));
    assert_eq!(ledger.acquire(&mine), Err(Device::Window { id: 3 }));
    ledger.release(&mine);
    assert!(!ledger.holds(Device::Window { id: 3 }));
    assert!(!ledger.holds(Device::Camera { device: 0 }));
    assert!(ledger.holds(Device::SystemAudio));
    assert_eq!(ledger.acquire(&mine), Ok(()));
    assert!(ledger.holds(Device::Window { id: 3 }));
}

#[test]
fn releasing_what_is_not_held_changes_nothing() {
    let mut ledger = DeviceLedger::new();
    assert_eq!(ledger.acquire(&vec![Device::SystemAudio]), Ok(()));
    ledger.release(&vec![Device::Screen { id: 9 }]);
    ledger.release(&Vec::new());
    assert!(ledger.holds(Device::SystemAudio));
    assert_eq!(ledger.acquire(&Vec::new()), Ok(()));
}
