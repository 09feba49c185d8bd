//! Sizes, cadences and the magic value that a cartridge announces itself with.

use vstd::prelude::*;

verus! {

/// Magic value that a Pinput-enabled cartridge places at the start of GPIO.
pub const PINPUT_MAGIC: u128 = 0x0220c74677ab446ebedc7fd6d277984d;

/// Number of gamepad records that fit into the GPIO area.
pub const PINPUT_MAX_GAMEPADS: usize = 8;

/// Size of one gamepad record in bytes.
pub const GAMEPAD_SIZE: usize = 16;

/// Size of the whole GPIO area in bytes.
pub const GPIO_SIZE: usize = 128;

/// Size of the magic value in bytes.
pub const MAGIC_SIZE: usize = 16;

/// Period of the synchronisation loop (60 Hz).
pub const FRAME_DURATION_MS: i64 = 16;

/// Period between attempts to connect to a runtime (1 Hz).
pub const SCAN_INTERVAL_MS: i64 = 1000;

/// Period between two readings of the battery level of a haptic device.
pub const BATTERY_POLL_INTERVAL_MS: u64 = 1000;

/// Byte `i` of a 128-bit value written most significant byte first.
pub open spec fn be_byte(v: u128, i: int) -> u8 {
    ((v >> ((8 * (15 - i)) as u128)) & 0xff) as u8
}

/// The sixteen bytes of a 128-bit value, most significant byte first.
pub open spec fn be_bytes(v: u128) -> Seq<u8> {
    Seq::new(16, |i: int| be_byte(v, i))
}

/// The magic value as the sixteen bytes found in a cartridge's memory.
pub open spec fn magic_seq() -> Seq<u8> {
    seq![
        0x02u8, 0x20, 0xc7, 0x46, 0x77, 0xab, 0x44, 0x6e,
        0xbe, 0xdc, 0x7f, 0xd6, 0xd2, 0x77, 0x98, 0x4d,
    ]
}

/// Calls `uuid::Uuid::from_u128` and copies out what `Uuid::as_bytes` borrows.
/// Trusted: the UUID built from a 128-bit value holds that value's bytes,
/// most significant byte first.
#[verifier::external_body]
fn uuid_bytes(v: u128) -> (bytes: [u8; 16])
    ensures
        bytes@ == be_bytes(v),
{
    *uuid::Uuid::from_u128(v).as_bytes()
}

/// The magic value in the byte order of the wire.
pub fn pinput_magic_bytes() -> (bytes: [u8; 16])
    ensures
        bytes@ == magic_seq(),
{
    let bytes = uuid_bytes(PINPUT_MAGIC);
    proof {
        assert({
            &&& be_byte(PINPUT_MAGIC, 0) == 0x02
            &&& be_byte(PINPUT_MAGIC, 1) == 0x20
            &&& be_byte(PINPUT_MAGIC, 2) == 0xc7
            &&& be_byte(PINPUT_MAGIC, 3) == 0x46
            &&& be_byte(PINPUT_MAGIC, 4) == 0x77
            &&& be_byte(PINPUT_MAGIC, 5) == 0xab
            &&& be_byte(PINPUT_MAGIC, 6) == 0x44
            &&& be_byte(PINPUT_MAGIC, 7) == 0x6e
            &&& be_byte(PINPUT_MAGIC, 8) == 0xbe
            &&& be_byte(PINPUT_MAGIC, 9) == 0xdc
            &&& be_byte(PINPUT_MAGIC, 10) == 0x7f
            &&& be_byte(PINPUT_MAGIC, 11) == 0xd6
            &&& be_byte(PINPUT_MAGIC, 12) == 0xd2
            &&& be_byte(PINPUT_MAGIC, 13) == 0x77
            &&& be_byte(PINPUT_MAGIC, 14) == 0x98
            &&& be_byte(PINPUT_MAGIC, 15) == 0x4d
        }) by (bit_vector);
    }
    bytes
}

} // verus!
