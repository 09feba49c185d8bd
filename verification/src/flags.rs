//! The two bit fields of a gamepad record: informational flags and pressed
//! buttons, together with the controller vocabulary they are filled from.

use vstd::prelude::*;

verus! {

/// Battery state as a game controller reports it.
#[derive(Clone, Copy, Debug, PartialEq, Eq, Structural)]
pub enum PowerLevel {
    Unknown,
    Empty,
    Low,
    Medium,
    Full,
    Wired,
}

/// A button of a game controller.
#[derive(Clone, Copy, Debug, PartialEq, Eq, Structural)]
pub enum Button {
    A,
    B,
    X,
    Y,
    Back,
    Guide,
    Start,
    LeftStick,
    RightStick,
    LeftShoulder,
    RightShoulder,
    DPadUp,
    DPadDown,
    DPadLeft,
    DPadRight,
    Misc1,
    Paddle1,
    Paddle2,
    Paddle3,
    Paddle4,
    Touchpad,
}

/// Gamepad informational flags, one byte on the wire.
#[derive(Clone, Copy, Debug, PartialEq, Eq, Structural)]
pub struct PinputGamepadFlags {
    pub bits: u8,
}

impl PinputGamepadFlags {
    /// This gamepad is connected.
    pub const CONNECTED: u8 = 0x01;

    /// This gamepad has a battery. Only then may the battery level and
    /// `CHARGING` be non-zero.
    pub const HAS_BATTERY: u8 = 0x02;

    /// This gamepad is currently charging its battery.
    pub const CHARGING: u8 = 0x04;

    /// This gamepad has a usable guide button.
    pub const HAS_GUIDE_BUTTON: u8 = 0x08;

    /// This gamepad has a misc or touchpad-click button.
    pub const HAS_MISC_BUTTON: u8 = 0x10;

    /// This gamepad supports vibration.
    pub const HAS_RUMBLE: u8 = 0x20;

    /// This record stands for a haptic device rather than a game controller.
    pub const HAPTIC_DEVICE: u8 = 0x40;

    /// Whether every bit of `mask` is set.
    pub open spec fn has(self, mask: u8) -> bool {
        self.bits & mask == mask
    }

    /// No flag set.
    pub fn empty() -> (flags: Self)
        ensures
            flags.bits == 0,
    {
        PinputGamepadFlags { bits: 0 }
    }

    /// The flags held by a byte. Every bit is kept, the reserved one too.
    pub fn from_bits(bits: u8) -> (flags: Self)
        ensures
            flags.bits == bits,
    {
        PinputGamepadFlags { bits }
    }

    /// The byte that holds these flags.
    pub fn bits(&self) -> (bits: u8)
        ensures
            bits == self.bits,
    {
        self.bits
    }

    /// Whether every bit of `mask` is set.
    pub fn contains(&self, mask: u8) -> (found: bool)
        ensures
            found == self.has(mask),
    {
        self.bits & mask == mask
    }

    /// Sets every bit of `mask` and leaves the others as they were.
    pub fn insert(&mut self, mask: u8)
        ensures
            final(self).bits == old(self).bits | mask,
            final(self).has(mask),
    {
        let before = self.bits;
        self.bits = before | mask;
        assert((before | mask) & mask == mask) by (bit_vector);
    }

    /// The flag that a power level contributes: a battery is reported unless
    /// the controller is wired or its power source is unknown.
    pub open spec fn of_power_level(power_level: PowerLevel) -> PinputGamepadFlags {
        match power_level {
            PowerLevel::Wired | PowerLevel::Unknown => PinputGamepadFlags { bits: 0 },
            _ => PinputGamepadFlags { bits: Self::HAS_BATTERY },
        }
    }
}

impl Default for PinputGamepadFlags {
    fn default() -> (flags: Self)
        ensures
            flags.bits == 0,
    {
        PinputGamepadFlags { bits: 0 }
    }
}

impl From<PowerLevel> for PinputGamepadFlags {
    fn from(power_level: PowerLevel) -> (flags: Self) {
        match power_level {
            PowerLevel::Wired | PowerLevel::Unknown => PinputGamepadFlags { bits: 0 },
            _ => PinputGamepadFlags { bits: Self::HAS_BATTERY },
        }
    }
}

impl vstd::std_specs::convert::FromSpecImpl<PowerLevel> for PinputGamepadFlags {
    open spec fn obeys_from_spec() -> bool {
        true
    }

    open spec fn from_spec(power_level: PowerLevel) -> PinputGamepadFlags {
        Self::of_power_level(power_level)
    }
}

/// Flags indicating which buttons are pressed, two bytes on the wire.
/// The layout is XInput's, with guide and misc in its two unused bits.
#[derive(Clone, Copy, Debug, PartialEq, Eq, Structural)]
pub struct PinputGamepadButtons {
    pub bits: u16,
}

/// A controller button that has no place among the sixteen button bits.
#[derive(Clone, Copy, Debug, PartialEq, Eq, Structural)]
pub enum PinputGamepadButtonsError {
    Unsupported(Button),
}

impl PinputGamepadButtons {
    pub const DPAD_UP: u16 = 0x0001;

    pub const DPAD_DOWN: u16 = 0x0002;

    pub const DPAD_LEFT: u16 = 0x0004;

    pub const DPAD_RIGHT: u16 = 0x0008;

    pub const START: u16 = 0x0010;

    pub const BACK: u16 = 0x0020;

    pub const LEFT_STICK: u16 = 0x0040;

    pub const RIGHT_STICK: u16 = 0x0080;

    pub const LEFT_BUMPER: u16 = 0x0100;

    pub const RIGHT_BUMPER: u16 = 0x0200;

    pub const GUIDE: u16 = 0x0400;

    /// Both the misc button and the touchpad click are reported here: no
    /// known controller has both, and they sit in about the same place.
    pub const MISC: u16 = 0x0800;

    pub const A: u16 = 0x1000;

    pub const B: u16 = 0x2000;

    pub const X: u16 = 0x4000;

    pub const Y: u16 = 0x8000;

    /// Whether every bit of `mask` is set.
    pub open spec fn has(self, mask: u16) -> bool {
        self.bits & mask == mask
    }

    /// The bit that stands for a controller button, or 0 where it has none.
    pub open spec fn mask_of(button: Button) -> u16 {
        match button {
            Button::A => Self::A,
            Button::B => Self::B,
            Button::X => Self::X,
            Button::Y => Self::Y,
            Button::Back => Self::BACK,
            Button::Guide => Self::GUIDE,
            Button::Start => Self::START,
            Button::Misc1 => Self::MISC,
            Button::LeftStick => Self::LEFT_STICK,
            Button::RightStick => Self::RIGHT_STICK,
            Button::LeftShoulder => Self::LEFT_BUMPER,
            Button::RightShoulder => Self::RIGHT_BUMPER,
            Button::DPadUp => Self::DPAD_UP,
            Button::DPadDown => Self::DPAD_DOWN,
            Button::DPadLeft => Self::DPAD_LEFT,
            Button::DPadRight => Self::DPAD_RIGHT,
            Button::Touchpad => Self::MISC,
            _ => 0,
        }
    }

    /// Whether a controller button has a bit of its own or a shared one.
    pub open spec fn supports(button: Button) -> bool {
        !(button is Paddle1 || button is Paddle2 || button is Paddle3 || button is Paddle4)
    }

    /// No button pressed.
    pub fn empty() -> (buttons: Self)
        ensures
            buttons.bits == 0,
    {
        PinputGamepadButtons { bits: 0 }
    }

    /// The buttons held by a 16-bit value.
    pub fn from_bits(bits: u16) -> (buttons: Self)
        ensures
            buttons.bits == bits,
    {
        PinputGamepadButtons { bits }
    }

    /// The 16-bit value that holds these buttons.
    pub fn bits(&self) -> (bits: u16)
        ensures
            bits == self.bits,
    {
        self.bits
    }

    /// Whether every bit of `mask` is set.
    pub fn contains(&self, mask: u16) -> (found: bool)
        ensures
            found == self.has(mask),
    {
        self.bits & mask == mask
    }

    /// Sets every bit of `mask` and leaves the others as they were.
    pub fn insert(&mut self, mask: u16)
        ensures
            final(self).bits == old(self).bits | mask,
            final(self).has(mask),
    {
        let before = self.bits;
        self.bits = before | mask;
        assert((before | mask) & mask == mask) by (bit_vector);
    }

    /// The single button bit that a controller button is reported as.
    /// The four paddles have none and are refused.
    pub fn try_from(button: Button) -> (converted: Result<Self, PinputGamepadButtonsError>)
        ensures
            Self::supports(button) ==> converted == Ok::<Self, PinputGamepadButtonsError>(
                PinputGamepadButtons { bits: Self::mask_of(button) },
            ),
            !Self::supports(button) ==> converted == Err::<Self, PinputGamepadButtonsError>(
                PinputGamepadButtonsError::Unsupported(button),
            ),
    {
        match button {
            Button::A => Ok(PinputGamepadButtons { bits: Self::A }),
            Button::B => Ok(PinputGamepadButtons { bits: Self::B }),
            Button::X => Ok(PinputGamepadButtons { bits: Self::X }),
            Button::Y => Ok(PinputGamepadButtons { bits: Self::Y }),
            Button::Back => Ok(PinputGamepadButtons { bits: Self::BACK }),
            Button::Guide => Ok(PinputGamepadButtons { bits: Self::GUIDE }),
            Button::Start => Ok(PinputGamepadButtons { bits: Self::START }),
            Button::Misc1 => Ok(PinputGamepadButtons { bits: Self::MISC }),
            Button::LeftStick => Ok(PinputGamepadButtons { bits: Self::LEFT_STICK }),
            Button::RightStick => Ok(PinputGamepadButtons { bits: Self::RIGHT_STICK }),
            Button::LeftShoulder => Ok(PinputGamepadButtons { bits: Self::LEFT_BUMPER }),
            Button::RightShoulder => Ok(PinputGamepadButtons { bits: Self::RIGHT_BUMPER }),
            Button::DPadUp => Ok(PinputGamepadButtons { bits: Self::DPAD_UP }),
            Button::DPadDown => Ok(PinputGamepadButtons { bits: Self::DPAD_DOWN }),
            Button::DPadLeft => Ok(PinputGamepadButtons { bits: Self::DPAD_LEFT }),
            Button::DPadRight => Ok(PinputGamepadButtons { bits: Self::DPAD_RIGHT }),
            Button::Touchpad => Ok(PinputGamepadButtons { bits: Self::MISC }),
            button => Err(PinputGamepadButtonsError::Unsupported(button)),
        }
    }
}

impl Default for PinputGamepadButtons {
    fn default() -> (buttons: Self)
        ensures
            buttons.bits == 0,
    {
        PinputGamepadButtons { bits: 0 }
    }
}

} // verus!
