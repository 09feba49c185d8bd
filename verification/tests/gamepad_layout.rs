use pinput::constants::{
    pinput_magic_bytes, FRAME_DURATION_MS, GAMEPAD_SIZE, GPIO_SIZE, PINPUT_MAGIC,
    PINPUT_MAX_GAMEPADS, SCAN_INTERVAL_MS,
};
use pinput::flags::{PinputGamepadButtons, PinputGamepadFlags};
use pinput::gamepad::{empty_gamepads, gamepads_from_bytes, gamepads_to_bytes, PinputGamepad};

fn next_byte(state: &mut u64) -> u8 {
    *state = state
        .wrapping_mul(6364136223846793005)
        .wrapping_add(1442695040888963407);
    (*state >> 33) as u8
}

fn sample_gamepad() -> PinputGamepad {
    PinputGamepad {
        flags: PinputGamepadFlags { bits: 0x21 },
        battery: 170,
        buttons: PinputGamepadButtons { bits: 0x1234 },
        left_trigger: 1,
        right_trigger: 254,
        left_stick_x: -2,
        left_stick_y: 0x0102,
        right_stick_x: i16::MIN,
        right_stick_y: i16::MAX,
        lo_freq_rumble: 0x80,
        hi_freq_rumble: 0xff,
    }
}

#[test]
fn record_is_written_field_by_field() {
    let bytes = sample_gamepad().to_bytes();
    assert_eq!(
        bytes,
        [
            0x21, 170, 0x34, 0x12, 1, 254, 0xfe, 0xff, 0x02, 0x01, 0x00, 0x80, 0xff, 0x7f, 0x80,
            0xff
        ]
    );
}

#[test]
fn record_is_read_field_by_field() {
    let bytes = [
        0x21, 170, 0x34, 0x12, 1, 254, 0xfe, 0xff, 0x02, 0x01, 0x00, 0x80, 0xff, 0x7f, 0x80, 0xff,
    ];
    assert_eq!(PinputGamepad::from_bytes(&bytes), sample_gamepad());
}

#[test]
fn record_of_any_bytes_writes_back_the_same_bytes() {
    let mut state = 0x5eed_u64;
    for _ in 0..2000 {
        let mut bytes = [0u8; 16];
        for byte in bytes.iter_mut() {
            *byte = next_byte(&mut state);
        }
        assert_eq!(PinputGamepad::from_bytes(&bytes).to_bytes(), bytes);
    }
}

#[test]
fn record_with_every_bit_set_writes_back_the_same_bytes() {
    let bytes = [0xffu8; 16];
    let gamepad = PinputGamepad::from_bytes(&bytes);
    assert_eq!(gamepad.flags.bits, 0xff);
    assert_eq!(gamepad.buttons.bits, 0xffff);
    assert_eq!(gamepad.left_stick_x, -1);
    assert_eq!(gamepad.to_bytes(), bytes);
}

#[test]
fn record_reads_back_after_writing() {
    let gamepad = sample_gamepad();
    assert_eq!(PinputGamepad::from_bytes(&gamepad.to_bytes()), gamepad);
}

#[test]
fn default_record_is_all_zero() {
    assert_eq!(PinputGamepad::default().to_bytes(), [0u8; 16]);
    assert_eq!(PinputGamepad::default().flags, PinputGamepadFlags::default());
    assert_eq!(PinputGamepad::default().buttons, PinputGamepadButtons::default());
}

#[test]
fn array_is_128_bytes() {
    assert_eq!(PINPUT_MAX_GAMEPADS, 8);
    assert_eq!(GAMEPAD_SIZE, 16);
    assert_eq!(GPIO_SIZE, 128);
    assert_eq!(PINPUT_MAX_GAMEPADS * GAMEPAD_SIZE, GPIO_SIZE);
    assert_eq!(gamepads_to_bytes(&empty_gamepads()).len(), 128);
    assert_eq!(std::mem::size_of_val(&sample_gamepad().to_bytes()), 16);
}

#[test]
fn array_puts_slots_one_after_another() {
    let mut gamepads = empty_gamepads();
    gamepads[3] = sample_gamepad();
    gamepads[7].hi_freq_rumble = 9;
    let bytes = gamepads_to_bytes(&gamepads);
    for (i, byte) in bytes.iter().enumerate() {
        if (48..64).contains(&i) {
            assert_eq!(*byte, sample_gamepad().to_bytes()[i - 48]);
        } else if i == 127 {
            assert_eq!(*byte, 9);
        } else {
            assert_eq!(*byte, 0);
        }
    }
    assert_eq!(gamepads_from_bytes(&bytes), gamepads);
}

#[test]
fn array_of_any_bytes_writes_back_the_same_bytes() {
    let mut state = 0xfeed_u64;
    for _ in 0..200 {
        let mut bytes = [0u8; 128];
        for byte in bytes.iter_mut() {
            *byte = next_byte(&mut state);
        }
        assert_eq!(gamepads_to_bytes(&gamepads_from_bytes(&bytes)), bytes);
    }
}

#[test]
fn magic_is_the_uuid_in_big_endian_bytes() {
    let expected = [
        0x02, 0x20, 0xc7, 0x46, 0x77, 0xab, 0x44, 0x6e, 0xbe, 0xdc, 0x7f, 0xd6, 0xd2, 0x77, 0x98,
        0x4d,
    ];
    assert_eq!(pinput_magic_bytes(), expected);
    assert_eq!(PINPUT_MAGIC, 0x0220c74677ab446ebedc7fd6d277984d);
    assert_eq!(PINPUT_MAGIC.to_be_bytes(), expected);
}

#[test]
fn magic_is_what_the_uuid_crate_holds() {
    let uuid = uuid::Uuid::from_u128(PINPUT_MAGIC);
    assert_eq!(&pinput_magic_bytes(), uuid.as_bytes());
    assert_eq!(
        uuid.hyphenated().to_string(),
        "0220c746-77ab-446e-bedc-7fd6d277984d"
    );
}

#[test]
fn cadences_are_60_hz_and_1_hz() {
    assert_eq!(FRAME_DURATION_MS, 16);
    assert_eq!(SCAN_INTERVAL_MS, 1000);
}

#[test]
fn flags_have_their_bits() {
    assert_eq!(PinputGamepadFlags::CONNECTED, 1 << 0);
    assert_eq!(PinputGamepadFlags::HAS_BATTERY, 1 << 1);
    assert_eq!(PinputGamepadFlags::CHARGING, 1 << 2);
    assert_eq!(PinputGamepadFlags::HAS_GUIDE_BUTTON, 1 << 3);
    assert_eq!(PinputGamepadFlags::HAS_MISC_BUTTON, 1 << 4);
    assert_eq!(PinputGamepadFlags::HAS_RUMBLE, 1 << 5);
    assert_eq!(PinputGamepadFlags::HAPTIC_DEVICE, 1 << 6);
}

#[test]
fn buttons_have_their_bits() {
    let bits = [
        PinputGamepadButtons::DPAD_UP,
        PinputGamepadButtons::DPAD_DOWN,
        PinputGamepadButtons::DPAD_LEFT,
        PinputGamepadButtons::DPAD_RIGHT,
        PinputGamepadButtons::START,
        PinputGamepadButtons::BACK,
        PinputGamepadButtons::LEFT_STICK,
        PinputGamepadButtons::RIGHT_STICK,
        PinputGamepadButtons::LEFT_BUMPER,
        PinputGamepadButtons::RIGHT_BUMPER,
        PinputGamepadButtons::GUIDE,
        PinputGamepadButtons::MISC,
        PinputGamepadButtons::A,
        PinputGamepadButtons::B,
        PinputGamepadButtons::X,
        PinputGamepadButtons::Y,
    ];
    for (position, bit) in bits.iter().enumerate() {
        assert_eq!(*bit, 1u16 << position);
    }
}

#[test]
fn flags_insert_and_contains() {
    let mut flags = PinputGamepadFlags::empty();
    assert!(!flags.contains(PinputGamepadFlags::CONNECTED));
    flags.insert(PinputGamepadFlags::CONNECTED);
    flags.insert(PinputGamepadFlags::HAS_RUMBLE);
    assert_eq!(flags.bits(), 0x21);
    assert!(flags.contains(PinputGamepadFlags::CONNECTED));
    assert!(flags.contains(PinputGamepadFlags::HAS_RUMBLE));
    assert!(!flags.contains(PinputGamepadFlags::CHARGING));
    assert_eq!(PinputGamepadFlags::from_bits(0x80).bits(), 0x80);
}

#[test]
fn buttons_insert_and_contains() {
    let mut buttons = PinputGamepadButtons::empty();
    buttons.insert(PinputGamepadButtons::A);
    buttons.insert(PinputGamepadButtons::DPAD_UP);
    assert_eq!(buttons.bits(), 0x1001);
    assert!(buttons.contains(PinputGamepadButtons::A));
    assert!(!buttons.contains(PinputGamepadButtons::B));
    assert!(buttons.contains(PinputGamepadButtons::A | PinputGamepadButtons::DPAD_UP));
    assert_eq!(PinputGamepadButtons::from_bits(0xffff).bits(), 0xffff);
}
