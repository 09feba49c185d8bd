//! The gamepad record and the array of eight that fills a runtime's GPIO
//! area, with their byte-for-byte wire format.
//!
//! The wire format is an ABI shared with cartridges: sixteen bytes per
//! record, no padding, 16-bit fields least significant byte first.

use vstd::prelude::*;
use crate::constants::{GAMEPAD_SIZE, GPIO_SIZE, PINPUT_MAX_GAMEPADS};
use crate::flags::{PinputGamepadButtons, PinputGamepadFlags};

verus! {

/// One gamepad as a cartridge sees it. Every field is written for the
/// cartridge to read, except for the two rumble fields, which the cartridge
/// writes.
#[derive(Clone, Copy, Debug, PartialEq, Eq, Structural)]
pub struct PinputGamepad {
    pub flags: PinputGamepadFlags,
    /// 0 for empty or not present, 255 for fully charged.
    pub battery: u8,
    pub buttons: PinputGamepadButtons,
    pub left_trigger: u8,
    pub right_trigger: u8,
    pub left_stick_x: i16,
    /// Positive is up.
    pub left_stick_y: i16,
    pub right_stick_x: i16,
    /// Positive is up.
    pub right_stick_y: i16,
    /// Written by the cartridge.
    pub lo_freq_rumble: u8,
    /// Written by the cartridge.
    pub hi_freq_rumble: u8,
}

/// The eight records of the GPIO area, by slot.
pub type PinputGamepadArray = [PinputGamepad; PINPUT_MAX_GAMEPADS];

/// Less significant byte of a 16-bit value, signed or not.
pub open spec fn low_byte(v: int) -> u8 {
    (v % 256) as u8
}

/// More significant byte of a 16-bit value, signed or not.
pub open spec fn high_byte(v: int) -> u8 {
    ((v / 256) % 256) as u8
}

/// The unsigned 16-bit value of two bytes, less significant first.
pub open spec fn u16_of(lo: u8, hi: u8) -> u16 {
    (lo + 256 * hi) as u16
}

/// The signed 16-bit value of two bytes, less significant first.
pub open spec fn i16_of(lo: u8, hi: u8) -> i16 {
    if hi >= 128 {
        (lo + 256 * hi - 65536) as i16
    } else {
        (lo + 256 * hi) as i16
    }
}

impl PinputGamepad {
    /// The record with every field zero: an empty slot.
    pub open spec fn zero() -> PinputGamepad {
        PinputGamepad {
            flags: PinputGamepadFlags { bits: 0 },
            battery: 0,
            buttons: PinputGamepadButtons { bits: 0 },
            left_trigger: 0,
            right_trigger: 0,
            left_stick_x: 0,
            left_stick_y: 0,
            right_stick_x: 0,
            right_stick_y: 0,
            lo_freq_rumble: 0,
            hi_freq_rumble: 0,
        }
    }

    /// The sixteen bytes of this record on the wire.
    pub open spec fn wire(self) -> Seq<u8> {
        seq![
            self.flags.bits,
            self.battery,
            low_byte(self.buttons.bits as int),
            high_byte(self.buttons.bits as int),
            self.left_trigger,
            self.right_trigger,
            low_byte(self.left_stick_x as int),
            high_byte(self.left_stick_x as int),
            low_byte(self.left_stick_y as int),
            high_byte(self.left_stick_y as int),
            low_byte(self.right_stick_x as int),
            high_byte(self.right_stick_x as int),
            low_byte(self.right_stick_y as int),
            high_byte(self.right_stick_y as int),
            self.lo_freq_rumble,
            self.hi_freq_rumble,
        ]
    }

    /// The record that sixteen bytes on the wire stand for.
    pub open spec fn parse(bytes: Seq<u8>) -> PinputGamepad {
        PinputGamepad {
            flags: PinputGamepadFlags { bits: bytes[0] },
            battery: bytes[1],
            buttons: PinputGamepadButtons { bits: u16_of(bytes[2], bytes[3]) },
            left_trigger: bytes[4],
            right_trigger: bytes[5],
            left_stick_x: i16_of(bytes[6], bytes[7]),
            left_stick_y: i16_of(bytes[8], bytes[9]),
            right_stick_x: i16_of(bytes[10], bytes[11]),
            right_stick_y: i16_of(bytes[12], bytes[13]),
            lo_freq_rumble: bytes[14],
            hi_freq_rumble: bytes[15],
        }
    }

    /// Writes this record as its sixteen bytes.
    pub fn to_bytes(&self) -> (bytes: [u8; 16])
        ensures
            bytes@ == self.wire(),
    {
        let buttons = u16_to_le(self.buttons.bits);
        let left_x = i16_to_le(self.left_stick_x);
        let left_y = i16_to_le(self.left_stick_y);
        let right_x = i16_to_le(self.right_stick_x);
        let right_y = i16_to_le(self.right_stick_y);
        let bytes = [
            self.flags.bits,
            self.battery,
            buttons.0,
            buttons.1,
            self.left_trigger,
            self.right_trigger,
            left_x.0,
            left_x.1,
            left_y.0,
            left_y.1,
            right_x.0,
            right_x.1,
            right_y.0,
            right_y.1,
            self.lo_freq_rumble,
            self.hi_freq_rumble,
        ];
        bytes
    }

    /// Reads a record from its sixteen bytes. Every byte pattern is a record.
    pub fn from_bytes(bytes: &[u8; 16]) -> (gamepad: Self)
        ensures
            gamepad == Self::parse(bytes@),
    {
        PinputGamepad {
            flags: PinputGamepadFlags { bits: bytes[0] },
            battery: bytes[1],
            buttons: PinputGamepadButtons { bits: u16_from_le(bytes[2], bytes[3]) },
            left_trigger: bytes[4],
            right_trigger: bytes[5],
            left_stick_x: i16_from_le(bytes[6], bytes[7]),
            left_stick_y: i16_from_le(bytes[8], bytes[9]),
            right_stick_x: i16_from_le(bytes[10], bytes[11]),
            right_stick_y: i16_from_le(bytes[12], bytes[13]),
            lo_freq_rumble: bytes[14],
            hi_freq_rumble: bytes[15],
        }
    }

    /// Reading back what was written gives the record again.
    pub proof fn lemma_parse_wire(self)
        ensures
            Self::parse(self.wire()) == self,
    {
    }

    /// Writing what was read gives the sixteen bytes again, whatever they
    /// were: the layout has no padding and loses nothing.
    pub proof fn lemma_wire_parse(bytes: Seq<u8>)
        requires
            bytes.len() == 16,
        ensures
            Self::parse(bytes).wire() == bytes,
    {
        lemma_u16_bytes(bytes[2], bytes[3]);
        lemma_i16_bytes(bytes[6], bytes[7]);
        lemma_i16_bytes(bytes[8], bytes[9]);
        lemma_i16_bytes(bytes[10], bytes[11]);
        lemma_i16_bytes(bytes[12], bytes[13]);
    }
}

impl Default for PinputGamepad {
    fn default() -> (gamepad: Self)
        ensures
            gamepad == Self::zero(),
    {
        PinputGamepad {
            flags: PinputGamepadFlags { bits: 0 },
            battery: 0,
            buttons: PinputGamepadButtons { bits: 0 },
            left_trigger: 0,
            right_trigger: 0,
            left_stick_x: 0,
            left_stick_y: 0,
            right_stick_x: 0,
            right_stick_y: 0,
            lo_freq_rumble: 0,
            hi_freq_rumble: 0,
        }
    }
}

proof fn lemma_u16_bytes(lo: u8, hi: u8)
    ensures
        low_byte(u16_of(lo, hi) as int) == lo,
        high_byte(u16_of(lo, hi) as int) == hi,
{
}

proof fn lemma_i16_bytes(lo: u8, hi: u8)
    ensures
        low_byte(i16_of(lo, hi) as int) == lo,
        high_byte(i16_of(lo, hi) as int) == hi,
{
}

fn u16_to_le(v: u16) -> (bytes: (u8, u8))
    ensures
        bytes.0 == low_byte(v as int),
        bytes.1 == high_byte(v as int),
{
    ((v % 256) as u8, (v / 256) as u8)
}

fn i16_to_le(v: i16) -> (bytes: (u8, u8))
    ensures
        bytes.0 == low_byte(v as int),
        bytes.1 == high_byte(v as int),
{
    let unsigned: u16 = if v < 0 {
        (v as i32 + 65536) as u16
    } else {
        v as u16
    };
    ((unsigned % 256) as u8, (unsigned / 256) as u8)
}

fn u16_from_le(lo: u8, hi: u8) -> (v: u16)
    ensures
        v == u16_of(lo, hi),
{
    lo as u16 + 256 * (hi as u16)
}

fn i16_from_le(lo: u8, hi: u8) -> (v: i16)
    ensures
        v == i16_of(lo, hi),
{
    let unsigned: i32 = lo as i32 + 256 * (hi as i32);
    if hi >= 128 {
        (unsigned - 65536) as i16
    } else {
        unsigned as i16
    }
}

/// The 128 bytes of eight records on the wire, slot after slot.
pub open spec fn array_wire(gamepads: Seq<PinputGamepad>) -> Seq<u8> {
    Seq::new(128, |i: int| gamepads[i / 16].wire()[i % 16])
}

/// The eight records that 128 bytes on the wire stand for.
pub open spec fn array_parse(bytes: Seq<u8>) -> Seq<PinputGamepad> {
    Seq::new(8, |slot: int| PinputGamepad::parse(bytes.subrange(16 * slot, 16 * slot + 16)))
}

/// Eight empty slots.
pub open spec fn zero_array() -> Seq<PinputGamepad> {
    Seq::new(8, |slot: int| PinputGamepad::zero())
}

/// An array of eight empty slots.
pub fn empty_gamepads() -> (gamepads: PinputGamepadArray)
    ensures
        gamepads@ == zero_array(),
{
    let gamepads = [PinputGamepad::default(); PINPUT_MAX_GAMEPADS];
    gamepads
}

/// Writes the eight records as the 128 bytes of the GPIO area.
pub fn gamepads_to_bytes(gamepads: &PinputGamepadArray) -> (bytes: [u8; 128])
    ensures
        bytes@ == array_wire(gamepads@),
{
    let mut bytes = [0u8; GPIO_SIZE];
    let mut slot: usize = 0;
    while slot < PINPUT_MAX_GAMEPADS
        invariant
            slot <= 8,
            forall|i: int| 0 <= i < 16 * slot ==> bytes@[i] == gamepads@[i / 16].wire()[i % 16],
        decreases 8 - slot,
    {
        let record = gamepads[slot].to_bytes();
        let mut offset: usize = 0;
        while offset < GAMEPAD_SIZE
            invariant
                slot < 8,
                offset <= 16,
                record@ == gamepads@[slot as int].wire(),
                forall|i: int|
                    0 <= i < 16 * slot + offset ==> bytes@[i] == gamepads@[i / 16].wire()[i % 16],
            decreases 16 - offset,
        {
            bytes[GAMEPAD_SIZE * slot + offset] = record[offset];
            offset += 1;
        }
        slot += 1;
    }
    bytes
}

/// Reads the eight records from the 128 bytes of the GPIO area.
pub fn gamepads_from_bytes(bytes: &[u8; 128]) -> (gamepads: PinputGamepadArray)
    ensures
        gamepads@ == array_parse(bytes@),
{
    let mut gamepads = [PinputGamepad::default(); PINPUT_MAX_GAMEPADS];
    let mut slot: usize = 0;
    while slot < PINPUT_MAX_GAMEPADS
        invariant
            slot <= 8,
            forall|s: int|
                0 <= s < slot ==> gamepads@[s] == PinputGamepad::parse(
                    bytes@.subrange(16 * s, 16 * s + 16),
                ),
        decreases 8 - slot,
    {
        let mut record = [0u8; GAMEPAD_SIZE];
        let mut offset: usize = 0;
        while offset < GAMEPAD_SIZE
            invariant
                slot < 8,
                offset <= 16,
                forall|i: int| 0 <= i < offset ==> record@[i] == bytes@[16 * slot + i],
            decreases 16 - offset,
        {
            record[offset] = bytes[GAMEPAD_SIZE * slot + offset];
            offset += 1;
        }
        gamepads[slot] = PinputGamepad::from_bytes(&record);
        slot += 1;
    }
    gamepads
}

/// What was written reads back as the same eight records.
pub proof fn lemma_array_parse_wire(gamepads: Seq<PinputGamepad>)
    requires
        gamepads.len() == 8,
    ensures
        array_parse(array_wire(gamepads)) == gamepads,
{
    let read_back = array_parse(array_wire(gamepads));
    assert forall|slot: int| 0 <= slot < 8 implies #[trigger] read_back[slot] == gamepads[slot] by {
        let part = array_wire(gamepads).subrange(16 * slot, 16 * slot + 16);
        assert(part =~= gamepads[slot].wire());
        gamepads[slot].lemma_parse_wire();
    }
}

/// What was read writes back as the same 128 bytes, whatever they were, and
/// eight records of sixteen bytes are the 128 bytes of the GPIO area.
pub proof fn lemma_array_wire_parse(bytes: Seq<u8>)
    requires
        bytes.len() == 128,
    ensures
        array_wire(array_parse(bytes)) == bytes,
        array_wire(array_parse(bytes)).len() == PINPUT_MAX_GAMEPADS * GAMEPAD_SIZE,
        PINPUT_MAX_GAMEPADS * GAMEPAD_SIZE == GPIO_SIZE,
{
    assert forall|i: int| 0 <= i < 128 implies #[trigger] array_wire(array_parse(bytes))[i]
        == bytes[i] by {
        let slot = i / 16;
        let part = bytes.subrange(16 * slot, 16 * slot + 16);
        PinputGamepad::lemma_wire_parse(part);
    }
}

} // verus!
