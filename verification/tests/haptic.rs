use pinput::flags::PinputGamepadFlags;
use pinput::gamepad::PinputGamepad;
use pinput::haptic::{
    reading_axis, reading_is_pressed, vibrate_command, ActuatorType, ClientEvent, HapticDevice,
    HapticInput, HapticSubsystem, SensorDescriptor, SensorRange, SensorType, VibrateCommand,
};

fn range(start: u32, end: u32) -> SensorRange {
    SensorRange { start, end }
}

fn sensor(sensor_type: SensorType, ranges: Vec<SensorRange>) -> SensorDescriptor {
    SensorDescriptor { sensor_type, ranges }
}

fn device_with_inputs(inputs: Vec<HapticInput>) -> HapticDevice {
    HapticDevice { index: 0, num_vibes: 0, battery_level: None, inputs }
}

fn indexes(subsystem: &HapticSubsystem) -> Vec<u32> {
    subsystem.devices().iter().map(|device| device.index).collect()
}

#[test]
fn new_device_counts_its_vibrators() {
    let device = HapticDevice::new(
        3,
        &Some(vec![
            ActuatorType::Vibrate,
            ActuatorType::Rotate,
            ActuatorType::Vibrate,
            ActuatorType::Unknown,
        ]),
        &None,
        &None,
    );
    assert_eq!(device.index, 3);
    assert_eq!(device.num_vibes, 2);
    assert_eq!(device.battery_level, None);
    assert!(device.inputs.is_empty());
    assert!(!device.needs_battery_monitor());
    assert!(!device.needs_sensor_events());
    assert_eq!(HapticDevice::new(1, &None, &None, &None).num_vibes, 0);
    assert_eq!(HapticDevice::new(1, &Some(vec![]), &None, &None).num_vibes, 0);
}

#[test]
fn new_device_with_a_battery_starts_full() {
    let device = HapticDevice::new(
        1,
        &None,
        &Some(vec![SensorType::RSSI, SensorType::Battery]),
        &None,
    );
    assert_eq!(device.battery_level, Some(255));
    assert!(device.needs_battery_monitor());
    let device = HapticDevice::new(1, &None, &Some(vec![SensorType::RSSI, SensorType::Button]), &None);
    assert_eq!(device.battery_level, None);
}

#[test]
fn new_device_keeps_buttons_and_pressure_sensors() {
    let device = HapticDevice::new(
        1,
        &None,
        &None,
        &Some(vec![
            sensor(SensorType::Battery, vec![range(0, 100)]),
            sensor(SensorType::Pressure, vec![range(10, 20), range(0xffff_ffff, 0)]),
            sensor(SensorType::RSSI, vec![range(0, 1)]),
            sensor(SensorType::Button, vec![range(0, 1)]),
            sensor(SensorType::Unknown, vec![]),
        ]),
    );
    assert_eq!(
        device.inputs,
        vec![
            HapticInput {
                sensor_type: SensorType::Pressure,
                ranges: vec![range(10, 20), range(0xffff_ffff, 0)],
                values: vec![10, -1],
            },
            HapticInput {
                sensor_type: SensorType::Button,
                ranges: vec![range(0, 1)],
                values: vec![0],
            },
        ]
    );
    assert!(device.needs_sensor_events());
    assert_eq!(
        device.subscriptions(),
        vec![(0, SensorType::Pressure), (1, SensorType::Button)]
    );
}

#[test]
fn device_without_channels_needs_no_events() {
    let device = HapticDevice::new(
        1,
        &None,
        &None,
        &Some(vec![sensor(SensorType::Button, vec![]), sensor(SensorType::Battery, vec![range(0, 1)])]),
    );
    assert_eq!(device.inputs.len(), 1);
    assert!(!device.needs_sensor_events());
}

#[test]
fn button_is_pressed_from_half_way() {
    assert!(!reading_is_pressed(range(0, 100), 49));
    assert!(reading_is_pressed(range(0, 100), 50));
    assert!(reading_is_pressed(range(0, 100), 1000));
    assert!(!reading_is_pressed(range(0, 100), -5));
    assert!(!reading_is_pressed(range(0, 1), 0));
    assert!(reading_is_pressed(range(0, 1), 1));
    assert!(!reading_is_pressed(range(10, 13), 11));
    assert!(reading_is_pressed(range(10, 13), 12));
}

#[test]
fn button_in_an_odd_range() {
    assert!(reading_is_pressed(range(5, 5), 6));
    assert!(!reading_is_pressed(range(5, 5), 5));
    assert!(!reading_is_pressed(range(5, 5), 4));
    assert!(reading_is_pressed(range(100, 0), 50));
    assert!(reading_is_pressed(range(100, 0), 0));
    assert!(!reading_is_pressed(range(100, 0), 51));
    assert!(!reading_is_pressed(range(100, 0), 100));
}

#[test]
fn button_threshold_agrees_with_the_ratio() {
    for (start, end) in [(0u32, 1u32), (0, 7), (3, 10), (10, 3), (5, 5), (0, 255)] {
        for value in -20..300 {
            let scaled = (value as f64 - start as f64) / (end as f64 - start as f64);
            assert_eq!(reading_is_pressed(range(start, end), value), scaled >= 0.5);
        }
    }
}

#[test]
fn pressure_is_rescaled_to_the_full_scale() {
    assert_eq!(reading_axis(range(0, 100), 0), -32768);
    assert_eq!(reading_axis(range(0, 100), 100), 32767);
    assert_eq!(reading_axis(range(0, 100), 50), 0);
    assert_eq!(reading_axis(range(0, 100), 75), 16383);
    assert_eq!(reading_axis(range(0, 100), 25), -16384);
    assert_eq!(reading_axis(range(0, 65535), 1), -32767);
    assert_eq!(reading_axis(range(0, 65535), 65534), 32766);
    assert_eq!(reading_axis(range(1000, 1001), 1001), 32767);
}

#[test]
fn pressure_outside_its_range_saturates() {
    assert_eq!(reading_axis(range(0, 100), 101), i16::MAX);
    assert_eq!(reading_axis(range(0, 100), i32::MAX), i16::MAX);
    assert_eq!(reading_axis(range(0, 100), -1), i16::MIN);
    assert_eq!(reading_axis(range(0xffff_ffff, 0), i32::MIN), 32767);
    assert_eq!(reading_axis(range(0, 0xffff_ffff), i32::MIN), i16::MIN);
}

#[test]
fn pressure_in_an_odd_range() {
    assert_eq!(reading_axis(range(5, 5), 6), i16::MAX);
    assert_eq!(reading_axis(range(5, 5), 5), 0);
    assert_eq!(reading_axis(range(5, 5), 4), i16::MIN);
    assert_eq!(reading_axis(range(100, 0), 100), -32768);
    assert_eq!(reading_axis(range(100, 0), 0), 32767);
    assert_eq!(reading_axis(range(100, 0), 50), 0);
}

#[test]
fn vibration_goes_by_the_number_of_vibrators() {
    let mut gamepad = PinputGamepad::default();
    gamepad.lo_freq_rumble = 200;
    gamepad.hi_freq_rumble = 100;
    let mut device = device_with_inputs(vec![]);
    assert_eq!(vibrate_command(&device, &gamepad), None);
    device.num_vibes = 1;
    assert_eq!(vibrate_command(&device, &gamepad), Some(VibrateCommand::Speed(200)));
    device.num_vibes = 2;
    assert_eq!(vibrate_command(&device, &gamepad), Some(VibrateCommand::SpeedVec(200, 100)));
    device.num_vibes = 3;
    assert_eq!(vibrate_command(&device, &gamepad), Some(VibrateCommand::Speed(200)));
    gamepad.hi_freq_rumble = 201;
    assert_eq!(vibrate_command(&device, &gamepad), Some(VibrateCommand::Speed(201)));
}

#[test]
fn haptic_device_fills_a_slot() {
    let subsystem = HapticSubsystem::new();
    let device = HapticDevice {
        index: 2,
        num_vibes: 2,
        battery_level: Some(128),
        inputs: vec![
            HapticInput {
                sensor_type: SensorType::Button,
                ranges: vec![range(0, 1), range(0, 1)],
                values: vec![1, 0],
            },
            HapticInput {
                sensor_type: SensorType::Pressure,
                ranges: vec![range(0, 100)],
                values: vec![100],
            },
            HapticInput {
                sensor_type: SensorType::Button,
                ranges: vec![range(0, 1), range(0, 1), range(0, 1)],
                values: vec![1, 1, 1],
            },
            HapticInput {
                sensor_type: SensorType::Pressure,
                ranges: vec![range(0, 100), range(0, 100), range(0, 100), range(0, 100)],
                values: vec![0, 50, 75, 100],
            },
        ],
    };
    let mut gamepad = PinputGamepad::from_bytes(&[0xff; 16]);
    gamepad.lo_freq_rumble = 7;
    gamepad.hi_freq_rumble = 8;
    let command = subsystem.sync_haptic_device(&device, &mut gamepad);
    assert_eq!(command, Some(VibrateCommand::SpeedVec(7, 8)));
    assert_eq!(gamepad.flags.bits, 0x40 | 0x01 | 0x20 | 0x02);
    assert_eq!(gamepad.battery, 128);
    assert_eq!(gamepad.buttons.bits, 0x1000 | 0x4000 | 0x8000);
    assert_eq!(gamepad.left_trigger, 0);
    assert_eq!(gamepad.right_trigger, 0);
    assert_eq!(gamepad.left_stick_x, 32767);
    assert_eq!(gamepad.left_stick_y, -32768);
    assert_eq!(gamepad.right_stick_x, 0);
    assert_eq!(gamepad.right_stick_y, 16383);
    assert_eq!(gamepad.lo_freq_rumble, 7);
    assert_eq!(gamepad.hi_freq_rumble, 8);
}

#[test]
fn plain_haptic_device_reports_little() {
    let subsystem = HapticSubsystem::new();
    let device = device_with_inputs(vec![HapticInput {
        sensor_type: SensorType::Battery,
        ranges: vec![range(0, 100)],
        values: vec![100],
    }]);
    let mut gamepad = PinputGamepad::from_bytes(&[0xff; 16]);
    assert_eq!(subsystem.sync_haptic_device(&device, &mut gamepad), None);
    assert_eq!(gamepad.flags.bits, 0x41);
    assert!(gamepad.flags.contains(PinputGamepadFlags::HAPTIC_DEVICE));
    assert!(gamepad.flags.contains(PinputGamepadFlags::CONNECTED));
    assert_eq!(
        gamepad.to_bytes(),
        [0x41, 0, 0, 0, 0, 0, 0, 0, 0, 0, 0, 0, 0, 0, 0xff, 0xff]
    );
}

#[test]
fn channel_without_a_value_is_not_read() {
    let subsystem = HapticSubsystem::new();
    let device = device_with_inputs(vec![
        HapticInput {
            sensor_type: SensorType::Button,
            ranges: vec![range(0, 1), range(0, 1)],
            values: vec![0],
        },
        HapticInput { sensor_type: SensorType::Button, ranges: vec![range(0, 1)], values: vec![1, 1] },
    ]);
    let mut gamepad = PinputGamepad::default();
    subsystem.sync_haptic_device(&device, &mut gamepad);
    assert_eq!(gamepad.buttons.bits, 0x2000);
}

#[test]
fn readings_replace_the_first_values() {
    let mut device = device_with_inputs(vec![
        HapticInput { sensor_type: SensorType::Button, ranges: vec![range(0, 1)], values: vec![0] },
        HapticInput {
            sensor_type: SensorType::Pressure,
            ranges: vec![range(0, 9), range(0, 9), range(0, 9)],
            values: vec![1, 2, 3],
        },
    ]);
    assert!(device.can_record_reading(1, 3));
    assert!(device.can_record_reading(1, 0));
    assert!(!device.can_record_reading(1, 4));
    assert!(!device.can_record_reading(2, 0));
    device.record_reading(1, &vec![7, 8]);
    assert_eq!(device.inputs[1].values, vec![7, 8, 3]);
    assert_eq!(device.inputs[0].values, vec![0]);
    device.record_reading(0, &vec![]);
    assert_eq!(device.inputs[0].values, vec![0]);
}

#[test]
fn battery_level_is_kept_where_there_is_a_battery() {
    let mut device = device_with_inputs(vec![]);
    device.record_battery(9);
    assert_eq!(device.battery_level, None);
    device.battery_level = Some(255);
    device.record_battery(9);
    assert_eq!(device.battery_level, Some(9));
}

#[test]
fn devices_are_kept_in_the_order_of_their_index() {
    let mut subsystem = HapticSubsystem::new();
    assert!(indexes(&subsystem).is_empty());
    for index in [5, 1, 9, 3, 0] {
        assert!(subsystem.insert(HapticDevice::new(index, &None, &None, &None)));
    }
    assert_eq!(indexes(&subsystem), vec![0, 1, 3, 5, 9]);
}

#[test]
fn device_with_a_known_index_is_not_taken_twice() {
    let mut subsystem = HapticSubsystem::new();
    assert!(subsystem.insert(HapticDevice::new(5, &Some(vec![ActuatorType::Vibrate]), &None, &None)));
    assert!(!subsystem.insert(HapticDevice::new(5, &None, &None, &None)));
    assert_eq!(indexes(&subsystem), vec![5]);
    assert_eq!(subsystem.devices()[0].num_vibes, 1);
}

#[test]
fn removed_device_is_forgotten() {
    let mut subsystem = HapticSubsystem::new();
    for index in [2, 4, 6] {
        subsystem.insert(HapticDevice::new(index, &None, &None, &None));
    }
    assert!(!subsystem.remove(3));
    assert_eq!(indexes(&subsystem), vec![2, 4, 6]);
    assert!(subsystem.remove(4));
    assert_eq!(indexes(&subsystem), vec![2, 6]);
    assert!(subsystem.remove(2));
    assert!(subsystem.remove(6));
    assert!(indexes(&subsystem).is_empty());
    assert!(!subsystem.remove(6));
}

#[test]
fn client_events_change_the_devices() {
    let mut subsystem = HapticSubsystem::new();
    assert!(subsystem.handle_client_event(ClientEvent::DeviceAdded(HapticDevice::new(
        8, &None, &None, &None
    ))));
    assert!(subsystem.handle_client_event(ClientEvent::DeviceAdded(HapticDevice::new(
        2, &None, &None, &None
    ))));
    assert!(subsystem.handle_client_event(ClientEvent::Error));
    assert!(subsystem.handle_client_event(ClientEvent::Other));
    assert_eq!(indexes(&subsystem), vec![2, 8]);
    assert!(subsystem.handle_client_event(ClientEvent::DeviceRemoved(8)));
    assert!(subsystem.handle_client_event(ClientEvent::DeviceRemoved(100)));
    assert_eq!(indexes(&subsystem), vec![2]);
    assert!(!subsystem.handle_client_event(ClientEvent::ServerDisconnect));
    assert_eq!(indexes(&subsystem), vec![2]);
}

#[test]
fn subsystem_keeps_what_devices_report() {
    let mut subsystem = HapticSubsystem::new();
    subsystem.insert(HapticDevice::new(
        1,
        &None,
        &Some(vec![SensorType::Battery]),
        &Some(vec![sensor(SensorType::Pressure, vec![range(0, 100), range(0, 100)])]),
    ));
    subsystem.insert(HapticDevice::new(2, &None, &None, &None));
    assert!(subsystem.record_battery(1, 40));
    assert!(subsystem.record_battery(2, 40));
    assert!(!subsystem.record_battery(3, 40));
    assert_eq!(subsystem.devices()[0].battery_level, Some(40));
    assert_eq!(subsystem.devices()[1].battery_level, None);
    assert!(subsystem.record_reading(1, 0, &vec![100]));
    assert_eq!(subsystem.devices()[0].inputs[0].values, vec![100, 0]);
    assert!(!subsystem.record_reading(1, 1, &vec![1]));
    assert!(!subsystem.record_reading(1, 0, &vec![1, 2, 3]));
    assert!(!subsystem.record_reading(2, 0, &vec![1]));
    assert!(!subsystem.record_reading(3, 0, &vec![]));
    assert_eq!(subsystem.devices()[0].inputs[0].values, vec![100, 0]);
    let mut gamepad = PinputGamepad::default();
    subsystem.sync_haptic_device(&subsystem.devices()[0], &mut gamepad);
    assert_eq!(gamepad.left_stick_x, 32767);
    assert_eq!(gamepad.left_stick_y, -32768);
    assert_eq!(gamepad.battery, 40);
}

#[test]
fn pressure_stays_within_one_of_the_ratio_in_floating_point() {
    for (start, end) in [(0u32, 1u32), (0, 3), (0, 7), (3, 10), (0, 100), (0, 255), (0, 1023), (10, 3)] {
        for value in -20..1100 {
            let scaled = (value as f64 - start as f64) / (end as f64 - start as f64);
            let rounded = (scaled * (i16::MAX as f64 - i16::MIN as f64) + i16::MIN as f64) as i16;
            let exact = reading_axis(range(start, end), value);
            assert!((exact as i32 - rounded as i32).abs() <= 1);
        }
    }
}

#[test]
fn battery_is_polled_once_a_second() {
    assert_eq!(pinput::constants::BATTERY_POLL_INTERVAL_MS, 1000);
}
