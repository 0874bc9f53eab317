use rmk::pointing::MotionData;
use rmk::pointing_device::{InitState, InitStep, PointingDevice, MAX_INIT_RETRIES};

/// A sensor that records calls and answers with fixed results.
struct DummyDriver {
    motion_pending: bool,
    motion: MotionData,
    init_called: bool,
    fails_init: bool,
    read_called: bool,
}

/// One initialization attempt: the device's decisions around the
/// sensor's `init`.
fn try_init(device: &mut PointingDevice, sensor: &mut DummyDriver) -> bool {
    match device.begin_init() {
        InitStep::Done(ready) => ready,
        InitStep::CallInit(retry_count) => {
            sensor.init_called = true;
            let (ready, _pause) = device.finish_init(retry_count, !sensor.fails_init);
            ready
        }
    }
}

/// One poll: initialize if needed, then add the pending motion.
fn poll_once(device: &mut PointingDevice, sensor: &mut DummyDriver) {
    if device.init_state != InitState::Ready && !try_init(device, sensor) {
        return;
    }
    if !sensor.motion_pending {
        return;
    }
    sensor.read_called = true;
    device.add_motion(sensor.motion);
}

#[test]
fn test_try_init_retries_and_fails() {
    let mut driver = DummyDriver {
        motion_pending: true,
        motion: MotionData { dx: 10, dy: -5 },
        init_called: false,
        fails_init: true,
        read_called: false,
    };
    let mut device = PointingDevice::new(1, 1, 1);

    let mut result = false;
    for i in 0..MAX_INIT_RETRIES {
        result = try_init(&mut device, &mut driver);
        if i + 1 < MAX_INIT_RETRIES {
            assert_eq!(device.init_state, InitState::Initializing(i + 1));
            assert!(!result, "Init should not succeed yet on attempt {}", i + 1);
        } else {
            assert_eq!(device.init_state, InitState::Failed);
            assert!(!result, "Init should fail after max retries");
        }
    }
    assert!(!result);
    assert_eq!(device.init_state, InitState::Failed);
}

#[test]
fn test_try_init_sets_state() {
    let mut driver = DummyDriver {
        motion_pending: true,
        motion: MotionData { dx: 10, dy: -5 },
        init_called: false,
        fails_init: false,
        read_called: false,
    };
    let mut device = PointingDevice::new(1, 1, 1);

    let result = try_init(&mut device, &mut driver);
    assert!(result, "Init should succeed");
    assert_eq!(device.init_state, InitState::Ready);
    assert!(driver.init_called, "Driver init should be called");
}

#[test]
fn test_poll_once_accumulate_motion() {
    let mut driver = DummyDriver {
        motion_pending: true,
        motion: MotionData { dx: 10, dy: -5 },
        init_called: false,
        fails_init: false,
        read_called: false,
    };
    let mut device = PointingDevice::new(1, 1, 1);

    let inited = try_init(&mut device, &mut driver);
    assert!(inited);
    assert_eq!(device.init_state, InitState::Ready);
    assert!(driver.init_called);

    poll_once(&mut device, &mut driver);
    assert_eq!(device.accumulated_x, 10);
    assert_eq!(device.accumulated_y, -5);
}

#[test]
fn test_polling_without_motion_pin_generates_event() {
    let mut driver = DummyDriver {
        motion_pending: true,
        motion: MotionData { dx: 3, dy: -2 },
        read_called: false,
        init_called: true,
        fails_init: false,
    };
    let mut device = PointingDevice::new(1, 1, 1);
    device.init_state = InitState::Ready;

    poll_once(&mut device, &mut driver);
    assert!(device.report_due(1));
    let event = device.take_report_event().unwrap();

    let axes = &event.axes;
    assert_eq!(axes[0].value, 3);
    assert_eq!(axes[1].value, -2);

    assert!(driver.read_called);
}
