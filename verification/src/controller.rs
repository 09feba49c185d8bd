//! The gamepad provider: how the state of one game controller becomes a
//! gamepad record, and how the record's rumble bytes become a rumble command.

use vstd::prelude::*;
use crate::constants::FRAME_DURATION_MS;
use crate::flags::{Button, PinputGamepadButtons, PinputGamepadFlags, PowerLevel};
use crate::gamepad::PinputGamepad;
use crate::search::{ascii, contains_bytes, literal, occurs};

verus! {

/// What one game controller reports at one instant, and whether it has been
/// found able to rumble.
#[derive(Clone, Debug, PartialEq, Eq)]
pub struct SdlGamepad {
    /// Whether the controller is still plugged in.
    pub attached: bool,
    /// The controller's mapping string: a comma-separated list of
    /// `name:binding` tokens.
    pub mapping: Vec<u8>,
    /// The state of its battery.
    pub power_level: PowerLevel,
    /// The buttons held down, in any order.
    pub pressed: Vec<Button>,
    pub left_x: i16,
    /// Positive is down, as the controller reports it.
    pub left_y: i16,
    pub right_x: i16,
    /// Positive is down, as the controller reports it.
    pub right_y: i16,
    pub trigger_left: i16,
    pub trigger_right: i16,
    /// Can this gamepad rumble? The only test is to try.
    pub rumble_capable: bool,
}

/// A rumble effect to hand to a controller.
#[derive(Clone, Copy, Debug, PartialEq, Eq, Structural)]
pub struct RumbleCommand {
    /// Strength of the low-frequency motor, 0 to 65535.
    pub low_frequency: u16,
    /// Strength of the high-frequency motor, 0 to 65535.
    pub high_frequency: u16,
    /// How long the effect lasts.
    pub duration_ms: u32,
}

/// What divides a raw trigger value on its way to a byte.
pub const TRIGGER_DIVISOR: i16 = 0x81;

/// A stick's vertical axis turned from positive-down to positive-up. This
/// is the bitwise complement and not the negation, so that the lowest raw
/// value has an image: it becomes the highest.
pub open spec fn flipped_axis(raw: i16) -> i16 {
    (-1 - raw) as i16
}

/// A raw trigger value brought down to a byte: the quotient by 129, rounded
/// towards zero, and for a negative quotient the byte that holds it in two's
/// complement.
pub open spec fn trigger_byte(raw: i16) -> u8 {
    if raw >= 0 {
        (raw / 129) as u8
    } else if raw > -129 {
        0
    } else {
        (256 - (-raw) / 129) as u8
    }
}

/// A rumble byte brought up to sixteen bits, so that 255 becomes 65535.
pub open spec fn rumble_strength(level: u8) -> u16 {
    (level * 257) as u16
}

/// The battery level that stands for a power level.
pub open spec fn battery_of(power_level: PowerLevel) -> u8 {
    match power_level {
        PowerLevel::Low => 85,
        PowerLevel::Medium => 170,
        PowerLevel::Full => 255,
        _ => 0,
    }
}

/// `bits` with `mask` set where `wanted` holds.
pub open spec fn set_if(bits: u8, wanted: bool, mask: u8) -> u8 {
    if wanted {
        bits | mask
    } else {
        bits
    }
}

/// The buttons bit field for a list of buttons held down: the bits of all
/// of them together. Buttons without a bit add nothing.
pub open spec fn pressed_bits(pressed: Seq<Button>) -> u16
    decreases pressed.len(),
{
    if pressed.len() == 0 {
        0
    } else {
        pressed_bits(pressed.drop_last()) | PinputGamepadButtons::mask_of(pressed.last())
    }
}

impl SdlGamepad {
    /// Whether the mapping names a guide button.
    pub open spec fn maps_guide(self) -> bool {
        occurs(self.mapping@, ascii("guide:"@))
    }

    /// Whether the mapping names a misc button or a touchpad click.
    pub open spec fn maps_misc(self) -> bool {
        occurs(self.mapping@, ascii("misc1:"@)) || occurs(self.mapping@, ascii("touchpad:"@))
    }

    /// Whether the controller reports a battery.
    pub open spec fn has_battery(self) -> bool {
        !(self.power_level is Wired || self.power_level is Unknown)
    }

    /// The flags of an attached controller. `CHARGING` is never among them:
    /// a controller cannot be asked whether it charges.
    pub open spec fn flag_bits(self) -> u8 {
        set_if(
            set_if(
                set_if(
                    set_if(
                        PinputGamepadFlags::CONNECTED,
                        self.maps_guide(),
                        PinputGamepadFlags::HAS_GUIDE_BUTTON,
                    ),
                    self.maps_misc(),
                    PinputGamepadFlags::HAS_MISC_BUTTON,
                ),
                self.rumble_capable,
                PinputGamepadFlags::HAS_RUMBLE,
            ),
            self.has_battery(),
            PinputGamepadFlags::HAS_BATTERY,
        )
    }

    /// The record that this controller leaves in a slot that held `before`:
    /// an empty slot once it is detached, else every outgoing field taken
    /// from the controller and the two rumble bytes kept.
    pub open spec fn synced(self, before: PinputGamepad) -> PinputGamepad {
        if !self.attached {
            PinputGamepad::zero()
        } else {
            PinputGamepad {
                flags: PinputGamepadFlags { bits: self.flag_bits() },
                battery: battery_of(self.power_level),
                buttons: PinputGamepadButtons { bits: pressed_bits(self.pressed@) },
                left_trigger: trigger_byte(self.trigger_left),
                right_trigger: trigger_byte(self.trigger_right),
                left_stick_x: self.left_x,
                left_stick_y: flipped_axis(self.left_y),
                right_stick_x: self.right_x,
                right_stick_y: flipped_axis(self.right_y),
                lo_freq_rumble: before.lo_freq_rumble,
                hi_freq_rumble: before.hi_freq_rumble,
            }
        }
    }

    /// The rumble command that a slot holding `gamepad` asks of this
    /// controller: none once it is detached or known not to rumble.
    pub open spec fn rumble_for(self, gamepad: PinputGamepad) -> Option<RumbleCommand> {
        if self.attached && self.rumble_capable {
            Some(
                RumbleCommand {
                    low_frequency: rumble_strength(gamepad.lo_freq_rumble),
                    high_frequency: rumble_strength(gamepad.hi_freq_rumble),
                    duration_ms: FRAME_DURATION_MS as u32,
                },
            )
        } else {
            None
        }
    }

    /// Records that a rumble command failed: the controller is not asked to
    /// rumble again and no longer reports that it can.
    pub fn disable_rumble(&mut self)
        ensures
            !final(self).rumble_capable,
            final(self).attached == old(self).attached,
            final(self).mapping == old(self).mapping,
            final(self).power_level == old(self).power_level,
            final(self).pressed == old(self).pressed,
            final(self).left_x == old(self).left_x,
            final(self).left_y == old(self).left_y,
            final(self).right_x == old(self).right_x,
            final(self).right_y == old(self).right_y,
            final(self).trigger_left == old(self).trigger_left,
            final(self).trigger_right == old(self).trigger_right,
    {
        self.rumble_capable = false;
    }
}

/// Whether a 16-bit value is one single button bit.
pub open spec fn is_button_bit(mask: u16) -> bool {
    mask == 0x0001 || mask == 0x0002 || mask == 0x0004 || mask == 0x0008 || mask == 0x0010 || mask
        == 0x0020 || mask == 0x0040 || mask == 0x0080 || mask == 0x0100 || mask == 0x0200 || mask
        == 0x0400 || mask == 0x0800 || mask == 0x1000 || mask == 0x2000 || mask == 0x4000 || mask
        == 0x8000
}

proof fn lemma_flag_bits(guide: bool, misc: bool, rumble: bool, battery: bool)
    by (bit_vector)
    ensures
        ({
            let bits = set_if(
                set_if(set_if(set_if(0x01u8, guide, 0x08u8), misc, 0x10u8), rumble, 0x20u8),
                battery,
                0x02u8,
            );
            &&& bits & 0x01 == 0x01
            &&& (bits & 0x02 == 0x02) == battery
            &&& bits & 0x04 != 0x04
            &&& (bits & 0x08 == 0x08) == guide
            &&& (bits & 0x10 == 0x10) == misc
            &&& (bits & 0x20 == 0x20) == rumble
            &&& bits & 0x40 != 0x40
            &&& bits & 0x80 != 0x80
        }),
{
}

proof fn lemma_one_more_button(bits: u16, added: u16, asked: u16)
    by (bit_vector)
    requires
        is_button_bit(asked),
        added == 0 || is_button_bit(added),
    ensures
        ((bits | added) & asked == asked) == (bits & asked == asked || added == asked),
{
}

/// The flags of an attached controller, one by one: connected; a battery
/// unless wired or unknown; guide, misc and rumble as the mapping and the
/// rumble test say; never charging, never a haptic device.
pub proof fn lemma_controller_flags(sdl_gamepad: SdlGamepad)
    ensures
        ({
            let flags = PinputGamepadFlags { bits: sdl_gamepad.flag_bits() };
            &&& flags.has(PinputGamepadFlags::CONNECTED)
            &&& flags.has(PinputGamepadFlags::HAS_BATTERY) == sdl_gamepad.has_battery()
            &&& !flags.has(PinputGamepadFlags::CHARGING)
            &&& flags.has(PinputGamepadFlags::HAS_GUIDE_BUTTON) == sdl_gamepad.maps_guide()
            &&& flags.has(PinputGamepadFlags::HAS_MISC_BUTTON) == sdl_gamepad.maps_misc()
            &&& flags.has(PinputGamepadFlags::HAS_RUMBLE) == sdl_gamepad.rumble_capable
            &&& !flags.has(PinputGamepadFlags::HAPTIC_DEVICE)
        }),
{
    lemma_flag_bits(
        sdl_gamepad.maps_guide(),
        sdl_gamepad.maps_misc(),
        sdl_gamepad.rumble_capable,
        sdl_gamepad.has_battery(),
    );
}

/// A button bit is set exactly when one of the buttons held down is
/// reported under it.
pub proof fn lemma_pressed_bits(pressed: Seq<Button>, mask: u16)
    requires
        is_button_bit(mask),
    ensures
        (pressed_bits(pressed) & mask == mask) <==> exists|i: int|
            0 <= i < pressed.len() && PinputGamepadButtons::mask_of(#[trigger] pressed[i]) == mask,
    decreases pressed.len(),
{
    if pressed.len() == 0 {
        assert(0u16 & mask != mask) by (bit_vector)
            requires
                is_button_bit(mask),
        ;
    } else {
        let rest = pressed.drop_last();
        let added = PinputGamepadButtons::mask_of(pressed.last());
        lemma_pressed_bits(rest, mask);
        lemma_one_more_button(pressed_bits(rest), added, mask);
        if pressed_bits(pressed) & mask == mask {
            if added == mask {
                assert(PinputGamepadButtons::mask_of(pressed[pressed.len() - 1]) == mask);
            } else {
                let i = choose|i: int|
                    0 <= i < rest.len() && PinputGamepadButtons::mask_of(#[trigger] rest[i])
                        == mask;
                assert(PinputGamepadButtons::mask_of(pressed[i]) == mask);
            }
        }
        if exists|i: int|
            0 <= i < pressed.len() && PinputGamepadButtons::mask_of(#[trigger] pressed[i])
                == mask {
            let i = choose|i: int|
                0 <= i < pressed.len() && PinputGamepadButtons::mask_of(#[trigger] pressed[i])
                    == mask;
            if i < rest.len() {
                assert(PinputGamepadButtons::mask_of(rest[i]) == mask);
            }
        }
    }
}

/// Turns a stick's vertical axis from positive-down to positive-up by
/// complementing its bits.
pub fn flip_axis(raw: i16) -> (flipped: i16)
    ensures
        flipped == flipped_axis(raw),
        flipped == !raw,
        flipped == -1 - raw,
{
    assert(!raw == -1 - raw) by (bit_vector);
    !raw
}

/// Brings a raw trigger value down to a byte.
pub fn scale_trigger(raw: i16) -> (scaled: u8)
    ensures
        scaled == trigger_byte(raw),
        raw >= 0 ==> scaled == raw / 129,
{
    let quotient = raw / TRIGGER_DIVISOR;
    if quotient >= 0 {
        quotient as u8
    } else {
        (256 + quotient) as u8
    }
}

/// Brings a rumble byte up to the sixteen bits that a controller takes.
pub fn scale_rumble(level: u8) -> (strength: u16)
    ensures
        strength == rumble_strength(level),
        strength == level * 257,
{
    level as u16 * 257
}

/// The battery level reported for a power level: 0, 85, 170 or 255.
pub fn battery_level(power_level: PowerLevel) -> (level: u8)
    ensures
        level == battery_of(power_level),
{
    match power_level {
        PowerLevel::Low => u8::MAX / 3,
        PowerLevel::Medium => u8::MAX / 3 * 2,
        PowerLevel::Full => u8::MAX,
        _ => 0,
    }
}

/// The buttons bit field for a list of buttons held down.
pub fn buttons_pressed(pressed: &Vec<Button>) -> (buttons: PinputGamepadButtons)
    ensures
        buttons.bits == pressed_bits(pressed@),
{
    let mut buttons = PinputGamepadButtons::default();
    let mut i: usize = 0;
    while i < pressed.len()
        invariant
            i <= pressed.len(),
            buttons.bits == pressed_bits(pressed@.take(i as int)),
        decreases pressed.len() - i,
    {
        proof {
            assert(pressed@.take(i + 1).drop_last() =~= pressed@.take(i as int));
        }
        match PinputGamepadButtons::try_from(pressed[i]) {
            Ok(button) => {
                buttons.insert(button.bits);
            },
            Err(_) => {
                assert(buttons.bits | 0u16 == buttons.bits) by (bit_vector);
            },
        }
        i += 1;
    }
    proof {
        assert(pressed@.take(pressed.len() as int) =~= pressed@);
    }
    buttons
}

/// The rumble command that the cartridge's rumble bytes in `gamepad` ask of
/// a controller, if it is attached and can rumble. The effect lasts one
/// frame, so it stops unless the cartridge keeps asking.
pub fn rumble_command(sdl_gamepad: &SdlGamepad, gamepad: &PinputGamepad) -> (command: Option<
    RumbleCommand,
>)
    ensures
        command == sdl_gamepad.rumble_for(*gamepad),
{
    if sdl_gamepad.attached && sdl_gamepad.rumble_capable {
        Some(
            RumbleCommand {
                low_frequency: scale_rumble(gamepad.lo_freq_rumble),
                high_frequency: scale_rumble(gamepad.hi_freq_rumble),
                duration_ms: FRAME_DURATION_MS as u32,
            },
        )
    } else {
        None
    }
}

/// Fills a slot from the state of its controller. A detached controller
/// leaves an empty slot. Otherwise every field that the cartridge reads is
/// written anew, and the two rumble bytes that the cartridge writes are left
/// alone.
pub fn sync_gamepad(sdl_gamepad: &SdlGamepad, gamepad: &mut PinputGamepad)
    ensures
        *final(gamepad) == sdl_gamepad.synced(*old(gamepad)),
{
    if !sdl_gamepad.attached {
        *gamepad = PinputGamepad::default();
        return ;
    }
    proof {
        reveal_strlit("guide:");
        reveal_strlit("misc1:");
        reveal_strlit("touchpad:");
    }
    let mut flags = PinputGamepadFlags::from_bits(PinputGamepadFlags::CONNECTED);
    if contains_bytes(sdl_gamepad.mapping.as_slice(), literal("guide:")) {
        flags.insert(PinputGamepadFlags::HAS_GUIDE_BUTTON);
    }
    if contains_bytes(sdl_gamepad.mapping.as_slice(), literal("misc1:")) || contains_bytes(
        sdl_gamepad.mapping.as_slice(),
        literal("touchpad:"),
    ) {
        flags.insert(PinputGamepadFlags::HAS_MISC_BUTTON);
    }
    if sdl_gamepad.rumble_capable {
        flags.insert(PinputGamepadFlags::HAS_RUMBLE);
    }
    match sdl_gamepad.power_level {
        PowerLevel::Wired | PowerLevel::Unknown => {},
        _ => {
            flags.insert(PinputGamepadFlags::HAS_BATTERY);
        },
    }
    gamepad.flags = flags;
    gamepad.battery = battery_level(sdl_gamepad.power_level);
    gamepad.buttons = buttons_pressed(&sdl_gamepad.pressed);
    gamepad.left_stick_x = sdl_gamepad.left_x;
    gamepad.left_stick_y = flip_axis(sdl_gamepad.left_y);
    gamepad.right_stick_x = sdl_gamepad.right_x;
    gamepad.right_stick_y = flip_axis(sdl_gamepad.right_y);
    gamepad.left_trigger = scale_trigger(sdl_gamepad.trigger_left);
    gamepad.right_trigger = scale_trigger(sdl_gamepad.trigger_right);
}

} // verus!
