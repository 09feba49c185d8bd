//! The haptic provider: what is kept of a haptic device, and how its state
//! becomes a gamepad record and the record's rumble bytes a vibration.

use vstd::prelude::*;
use crate::flags::{PinputGamepadButtons, PinputGamepadFlags};
use crate::gamepad::PinputGamepad;

verus! {

/// What an actuator of a haptic device does.
#[derive(Clone, Copy, Debug, PartialEq, Eq, Structural)]
pub enum ActuatorType {
    Unknown,
    Vibrate,
    Rotate,
    Oscillate,
    Constrict,
    Inflate,
    Position,
}

/// What a sensor of a haptic device measures.
#[derive(Clone, Copy, Debug, PartialEq, Eq, Structural)]
pub enum SensorType {
    Unknown,
    Battery,
    RSSI,
    Button,
    Pressure,
}

/// The values that one channel of a sensor can take, both ends included.
#[derive(Clone, Copy, Debug, PartialEq, Eq, Structural)]
pub struct SensorRange {
    pub start: u32,
    pub end: u32,
}

/// A sensor as a device announces it: its kind and one range per value that
/// it reports.
#[derive(Clone, Debug, PartialEq, Eq)]
pub struct SensorDescriptor {
    pub sensor_type: SensorType,
    pub ranges: Vec<SensorRange>,
}

/// A button or pressure sensor of a device with its latest values, one per
/// range.
#[derive(Clone, Debug, PartialEq, Eq)]
pub struct HapticInput {
    pub sensor_type: SensorType,
    pub ranges: Vec<SensorRange>,
    pub values: Vec<i32>,
}

/// What is kept of one haptic device. Devices are told apart by `index`,
/// which the device manager gives out in increasing order.
#[derive(Clone, Debug)]
pub struct HapticDevice {
    pub index: u32,
    /// Number of vibration actuators.
    pub num_vibes: usize,
    /// Latest battery level, 255 for full, where the device has a battery
    /// sensor.
    pub battery_level: Option<u8>,
    /// The button and pressure sensors, in the order of their announcement.
    pub inputs: Vec<HapticInput>,
}

/// One value of one sensor with the range it lies in.
pub struct Reading {
    pub sensor_type: SensorType,
    pub range: SensorRange,
    pub value: i32,
}

/// Whether a sensor of this kind feeds a gamepad record.
pub open spec fn is_input(sensor_type: SensorType) -> bool {
    sensor_type is Button || sensor_type is Pressure
}

/// A 32-bit value read as signed: the upper half of the unsigned values
/// becomes the negative ones.
pub open spec fn as_signed(value: u32) -> i32 {
    if value < 0x8000_0000 {
        value as i32
    } else {
        (value - 0x1_0000_0000) as i32
    }
}

/// How many of the actuators vibrate.
pub open spec fn count_vibrators(actuators: Seq<ActuatorType>) -> nat
    decreases actuators.len(),
{
    if actuators.len() == 0 {
        0
    } else {
        count_vibrators(actuators.drop_last()) + if actuators.last() is Vibrate {
            1nat
        } else {
            0nat
        }
    }
}

/// Whether a battery sensor is among the sensors.
pub open spec fn has_battery_sensor(sensors: Seq<SensorType>) -> bool {
    exists|i: int| 0 <= i < sensors.len() && sensors[i] is Battery
}

/// The value that each channel of a sensor starts with: the low end of
/// its range.
pub open spec fn initial_values(ranges: Seq<SensorRange>) -> Seq<i32> {
    Seq::new(ranges.len(), |i: int| as_signed(ranges[i].start))
}

/// An announced list, or the empty one where nothing was announced.
pub open spec fn announced<T>(list: Option<Vec<T>>) -> Seq<T> {
    match list {
        Some(items) => items@,
        None => Seq::empty(),
    }
}

impl HapticInput {
    /// The readings of this sensor: a range and a value for each channel
    /// that has both.
    pub open spec fn readings(self) -> Seq<Reading> {
        Seq::new(
            if self.ranges@.len() <= self.values@.len() {
                self.ranges@.len()
            } else {
                self.values@.len()
            },
            |i: int|
                Reading {
                    sensor_type: self.sensor_type,
                    range: self.ranges@[i],
                    value: self.values@[i],
                },
        )
    }

    /// Whether this is the input kept for an announced sensor.
    pub open spec fn is_initial_for(self, sensor: SensorDescriptor) -> bool {
        &&& self.sensor_type == sensor.sensor_type
        &&& self.ranges@ == sensor.ranges@
        &&& self.values@ == initial_values(sensor.ranges@)
    }
}

/// The announced sensors that feed a gamepad record, in order.
pub open spec fn input_sensors(sensors: Seq<SensorDescriptor>) -> Seq<SensorDescriptor>
    decreases sensors.len(),
{
    if sensors.len() == 0 {
        Seq::empty()
    } else if is_input(sensors.last().sensor_type) {
        input_sensors(sensors.drop_last()).push(sensors.last())
    } else {
        input_sensors(sensors.drop_last())
    }
}

/// All readings of a list of inputs, sensor after sensor.
pub open spec fn all_readings(inputs: Seq<HapticInput>) -> Seq<Reading>
    decreases inputs.len(),
{
    if inputs.len() == 0 {
        Seq::empty()
    } else {
        all_readings(inputs.drop_last()) + inputs.last().readings()
    }
}

/// How many values the inputs report in all.
pub open spec fn count_channels(inputs: Seq<HapticInput>) -> nat
    decreases inputs.len(),
{
    if inputs.len() == 0 {
        0
    } else {
        count_channels(inputs.drop_last()) + inputs.last().ranges@.len()
    }
}

fn signed(value: u32) -> (result: i32)
    ensures
        result == as_signed(value),
{
    if value < 0x8000_0000 {
        value as i32
    } else {
        (value as i64 - 0x1_0000_0000) as i32
    }
}

fn copy_ranges(ranges: &Vec<SensorRange>) -> (copy: Vec<SensorRange>)
    ensures
        copy@ == ranges@,
{
    let mut copy: Vec<SensorRange> = Vec::new();
    let mut i: usize = 0;
    while i < ranges.len()
        invariant
            i <= ranges.len(),
            copy@ == ranges@.take(i as int),
        decreases ranges.len() - i,
    {
        copy.push(ranges[i]);
        i += 1;
    }
    copy
}

fn start_values(ranges: &Vec<SensorRange>) -> (values: Vec<i32>)
    ensures
        values@ == initial_values(ranges@),
{
    let mut values: Vec<i32> = Vec::new();
    let mut i: usize = 0;
    while i < ranges.len()
        invariant
            i <= ranges.len(),
            values@.len() == i,
            forall|j: int| 0 <= j < i ==> values@[j] == as_signed(ranges@[j].start),
        decreases ranges.len() - i,
    {
        values.push(signed(ranges[i].start));
        i += 1;
    }
    values
}

impl HapticDevice {
    /// Whether the inputs are those kept for a list of announced sensors.
    pub open spec fn inputs_match(self, sensors: Seq<SensorDescriptor>) -> bool {
        &&& self.inputs@.len() == sensors.len()
        &&& forall|i: int|
            0 <= i < sensors.len() ==> (#[trigger] self.inputs@[i]).is_initial_for(sensors[i])
    }

    /// Whether the battery of this device has to be polled.
    pub open spec fn wants_battery_monitor(self) -> bool {
        self.battery_level is Some
    }

    /// Whether the readings of this device have to be listened for.
    pub open spec fn wants_sensor_events(self) -> bool {
        count_channels(self.inputs@) > 0
    }

    /// What is kept of a device that announces these actuators, these
    /// readable sensors and these sensors to subscribe to; a list that the
    /// device does not announce counts as empty.
    ///
    /// Only the actuators that vibrate count. A battery sensor among the
    /// readable ones gives the device a battery level, full until it is
    /// first polled. Of the sensors to subscribe to, buttons and pressure
    /// sensors are kept, each channel starting at the low end of its range.
    pub fn new(
        index: u32,
        scalar_cmds: &Option<Vec<ActuatorType>>,
        sensor_read_cmds: &Option<Vec<SensorType>>,
        sensor_subscribe_cmds: &Option<Vec<SensorDescriptor>>,
    ) -> (device: Self)
        ensures
            device.index == index,
            device.num_vibes == count_vibrators(announced(*scalar_cmds)),
            device.battery_level == if has_battery_sensor(announced(*sensor_read_cmds)) {
                Some(255u8)
            } else {
                None
            },
            device.inputs_match(input_sensors(announced(*sensor_subscribe_cmds))),
    {
        let mut num_vibes: usize = 0;
        if let Some(actuators) = scalar_cmds {
            let mut i: usize = 0;
            while i < actuators.len()
                invariant
                    i <= actuators.len(),
                    num_vibes == count_vibrators(actuators@.take(i as int)),
                    num_vibes <= i,
                decreases actuators.len() - i,
            {
                proof {
                    assert(actuators@.take(i + 1).drop_last() =~= actuators@.take(i as int));
                }
                if let ActuatorType::Vibrate = actuators[i] {
                    num_vibes += 1;
                }
                i += 1;
            }
            proof {
                assert(actuators@.take(actuators.len() as int) =~= actuators@);
            }
        }
        let mut battery_level: Option<u8> = None;
        if let Some(sensors) = sensor_read_cmds {
            let mut i: usize = 0;
            while i < sensors.len()
                invariant
                    i <= sensors.len(),
                    battery_level == if has_battery_sensor(sensors@.take(i as int)) {
                        Some(255u8)
                    } else {
                        None
                    },
                decreases sensors.len() - i,
            {
                proof {
                    let before = sensors@.take(i as int);
                    let after = sensors@.take(i + 1);
                    if has_battery_sensor(before) {
                        let k = choose|k: int| 0 <= k < before.len() && before[k] is Battery;
                        assert(after[k] is Battery);
                    }
                    if has_battery_sensor(after) && !(sensors@[i as int] is Battery) {
                        let k = choose|k: int| 0 <= k < after.len() && after[k] is Battery;
                        assert(before[k] is Battery);
                    }
                    if sensors@[i as int] is Battery {
                        assert(after[i as int] is Battery);
                    }
                }
                if let SensorType::Battery = sensors[i] {
                    battery_level = Some(u8::MAX);
                }
                i += 1;
            }
            proof {
                assert(sensors@.take(sensors.len() as int) =~= sensors@);
            }
        }
        let mut inputs: Vec<HapticInput> = Vec::new();
        if let Some(sensors) = sensor_subscribe_cmds {
            let mut i: usize = 0;
            while i < sensors.len()
                invariant
                    i <= sensors.len(),
                    inputs@.len() == input_sensors(sensors@.take(i as int)).len(),
                    forall|k: int|
                        0 <= k < inputs@.len() ==> (#[trigger] inputs@[k]).is_initial_for(
                            input_sensors(sensors@.take(i as int))[k],
                        ),
                decreases sensors.len() - i,
            {
                proof {
                    assert(sensors@.take(i + 1).drop_last() =~= sensors@.take(i as int));
                }
                let sensor = &sensors[i];
                let kept = match sensor.sensor_type {
                    SensorType::Button | SensorType::Pressure => true,
                    _ => false,
                };
                if kept {
                    inputs.push(
                        HapticInput {
                            sensor_type: sensor.sensor_type,
                            ranges: copy_ranges(&sensor.ranges),
                            values: start_values(&sensor.ranges),
                        },
                    );
                }
                i += 1;
            }
            proof {
                assert(sensors@.take(sensors.len() as int) =~= sensors@);
            }
        }
        HapticDevice { index, num_vibes, battery_level, inputs }
    }
}

/// A rumble request for a haptic device. A speed is a byte out of 255: the
/// device is to run at that fraction of its full speed.
#[derive(Clone, Copy, Debug, PartialEq, Eq, Structural)]
pub enum VibrateCommand {
    /// Every actuator at the same speed.
    Speed(u8),
    /// The first actuator at the first speed, the second at the second.
    SpeedVec(u8, u8),
}

/// The size of a number without its sign.
pub open spec fn magnitude(v: int) -> int {
    if v < 0 {
        -v
    } else {
        v
    }
}

/// The quotient of two integers rounded towards zero.
pub open spec fn quotient_towards_zero(dividend: int, divisor: int) -> int
    recommends
        divisor != 0,
{
    let quotient = magnitude(dividend) / magnitude(divisor);
    if (dividend < 0) != (divisor < 0) {
        -quotient
    } else {
        quotient
    }
}

/// An integer brought into the signed 16-bit range by its nearer end.
pub open spec fn saturated(v: int) -> i16 {
    if v < -32768 {
        -32768i16
    } else if v > 32767 {
        32767i16
    } else {
        v as i16
    }
}

impl Reading {
    /// How far the value lies above the low end of its range.
    pub open spec fn offset(self) -> int {
        self.value - self.range.start
    }

    /// The width of the range; negative where its ends are given in the
    /// wrong order.
    pub open spec fn span(self) -> int {
        self.range.end - self.range.start
    }

    /// Whether the value lies at least half way through its range, that is
    /// whether `offset / span >= 1/2`. In a range of width zero only a value
    /// above it counts as pressed.
    pub open spec fn is_pressed(self) -> bool {
        if self.span() > 0 {
            2 * self.offset() >= self.span()
        } else if self.span() < 0 {
            2 * self.offset() <= self.span()
        } else {
            self.offset() > 0
        }
    }

    /// The value rescaled from its range to the full signed 16-bit scale:
    /// `offset / span * 65535 - 32768`, computed exactly, rounded towards
    /// zero and saturated. In a range of width zero a value above it gives
    /// the highest result, one below it the lowest, and one on it 0.
    pub open spec fn axis(self) -> i16 {
        if self.span() == 0 {
            if self.offset() > 0 {
                32767i16
            } else if self.offset() < 0 {
                -32768i16
            } else {
                0i16
            }
        } else {
            saturated(
                quotient_towards_zero(65535 * self.offset() - 32768 * self.span(), self.span()),
            )
        }
    }
}

/// The readings of one kind among some readings, in order.
pub open spec fn readings_of(readings: Seq<Reading>, sensor_type: SensorType) -> Seq<Reading>
    decreases readings.len(),
{
    if readings.len() == 0 {
        Seq::empty()
    } else if readings.last().sensor_type == sensor_type {
        readings_of(readings.drop_last(), sensor_type).push(readings.last())
    } else {
        readings_of(readings.drop_last(), sensor_type)
    }
}

/// Whether there is a reading number `k` and it is pressed.
pub open spec fn pressed_at(buttons: Seq<Reading>, k: int) -> bool {
    k < buttons.len() && buttons[k].is_pressed()
}

/// `bits` with `mask` set where `wanted` holds.
pub open spec fn with_button(bits: u16, wanted: bool, mask: u16) -> u16 {
    if wanted {
        bits | mask
    } else {
        bits
    }
}

/// The buttons bit field for some readings: the first four button readings
/// stand for A, B, X and Y in this order.
pub open spec fn sensed_buttons(readings: Seq<Reading>) -> u16 {
    let buttons = readings_of(readings, SensorType::Button);
    with_button(
        with_button(
            with_button(
                with_button(0, pressed_at(buttons, 0), PinputGamepadButtons::A),
                pressed_at(buttons, 1),
                PinputGamepadButtons::B,
            ),
            pressed_at(buttons, 2),
            PinputGamepadButtons::X,
        ),
        pressed_at(buttons, 3),
        PinputGamepadButtons::Y,
    )
}

/// The value of stick axis `k` for some readings: the first four pressure
/// readings stand for left x, left y, right x and right y in this order,
/// and an axis without a reading rests at 0.
pub open spec fn sensed_axis(readings: Seq<Reading>, k: int) -> i16 {
    let pressures = readings_of(readings, SensorType::Pressure);
    if k < pressures.len() {
        pressures[k].axis()
    } else {
        0
    }
}

/// The flags of a haptic device.
pub open spec fn haptic_flag_bits(num_vibes: usize, has_battery: bool) -> u8 {
    let connected = PinputGamepadFlags::HAPTIC_DEVICE | PinputGamepadFlags::CONNECTED;
    let rumbling = if num_vibes > 0 {
        connected | PinputGamepadFlags::HAS_RUMBLE
    } else {
        connected
    };
    if has_battery {
        rumbling | PinputGamepadFlags::HAS_BATTERY
    } else {
        rumbling
    }
}

proof fn lemma_haptic_flag_bits(rumble: bool, battery: bool)
    by (bit_vector)
    ensures
        ({
            let connected = 0x40u8 | 0x01u8;
            let rumbling = if rumble {
                connected | 0x20u8
            } else {
                connected
            };
            let bits = if battery {
                rumbling | 0x02u8
            } else {
                rumbling
            };
            &&& bits & 0x01 == 0x01
            &&& (bits & 0x02 == 0x02) == battery
            &&& bits & 0x04 != 0x04
            &&& bits & 0x08 != 0x08
            &&& bits & 0x10 != 0x10
            &&& (bits & 0x20 == 0x20) == rumble
            &&& bits & 0x40 == 0x40
            &&& bits & 0x80 != 0x80
        }),
{
}

/// The flags of a haptic device, one by one: a connected haptic device;
/// rumble with a vibrator, a battery with a battery sensor; nothing else.
pub proof fn lemma_haptic_flags(num_vibes: usize, has_battery: bool)
    ensures
        ({
            let flags = PinputGamepadFlags { bits: haptic_flag_bits(num_vibes, has_battery) };
            &&& flags.has(PinputGamepadFlags::CONNECTED)
            &&& flags.has(PinputGamepadFlags::HAS_BATTERY) == has_battery
            &&& !flags.has(PinputGamepadFlags::CHARGING)
            &&& !flags.has(PinputGamepadFlags::HAS_GUIDE_BUTTON)
            &&& !flags.has(PinputGamepadFlags::HAS_MISC_BUTTON)
            &&& flags.has(PinputGamepadFlags::HAS_RUMBLE) == (num_vibes > 0)
            &&& flags.has(PinputGamepadFlags::HAPTIC_DEVICE)
        }),
{
    lemma_haptic_flag_bits(num_vibes > 0, has_battery);
}

impl HapticDevice {
    /// The record that this device leaves in a slot that held `before`:
    /// every outgoing field taken from the device, the triggers at rest, and
    /// the two rumble bytes kept.
    pub open spec fn synced(self, before: PinputGamepad) -> PinputGamepad {
        let readings = all_readings(self.inputs@);
        PinputGamepad {
            flags: PinputGamepadFlags {
                bits: haptic_flag_bits(self.num_vibes, self.battery_level is Some),
            },
            battery: match self.battery_level {
                Some(level) => level,
                None => 0,
            },
            buttons: PinputGamepadButtons { bits: sensed_buttons(readings) },
            left_trigger: 0,
            right_trigger: 0,
            left_stick_x: sensed_axis(readings, 0),
            left_stick_y: sensed_axis(readings, 1),
            right_stick_x: sensed_axis(readings, 2),
            right_stick_y: sensed_axis(readings, 3),
            lo_freq_rumble: before.lo_freq_rumble,
            hi_freq_rumble: before.hi_freq_rumble,
        }
    }

    /// The vibration that a slot holding `gamepad` asks of this device: none
    /// without a vibrator; with exactly two, the low frequency for the first
    /// and the high frequency for the second; else the stronger of the two
    /// for all.
    pub open spec fn vibration_for(self, gamepad: PinputGamepad) -> Option<VibrateCommand> {
        if self.num_vibes == 0 {
            None
        } else if self.num_vibes == 2 {
            Some(VibrateCommand::SpeedVec(gamepad.lo_freq_rumble, gamepad.hi_freq_rumble))
        } else if gamepad.lo_freq_rumble >= gamepad.hi_freq_rumble {
            Some(VibrateCommand::Speed(gamepad.lo_freq_rumble))
        } else {
            Some(VibrateCommand::Speed(gamepad.hi_freq_rumble))
        }
    }
}

/// Whether a value lies at least half way through its range.
pub fn reading_is_pressed(range: SensorRange, value: i32) -> (pressed: bool)
    ensures
        pressed == (Reading { sensor_type: SensorType::Button, range, value }).is_pressed(),
{
    let offset: i64 = value as i64 - range.start as i64;
    let span: i64 = range.end as i64 - range.start as i64;
    if span > 0 {
        2 * offset >= span
    } else if span < 0 {
        2 * offset <= span
    } else {
        offset > 0
    }
}

/// Rescales a value from its range to the full signed 16-bit scale.
pub fn reading_axis(range: SensorRange, value: i32) -> (axis: i16)
    ensures
        axis == (Reading { sensor_type: SensorType::Pressure, range, value }).axis(),
{
    let offset: i64 = value as i64 - range.start as i64;
    let span: i64 = range.end as i64 - range.start as i64;
    if span == 0 {
        return if offset > 0 {
            i16::MAX
        } else if offset < 0 {
            i16::MIN
        } else {
            0
        };
    }
    let dividend: i64 = 65535 * offset - 32768 * span;
    let dividend_size: i64 = if dividend < 0 {
        -dividend
    } else {
        dividend
    };
    let span_size: i64 = if span < 0 {
        -span
    } else {
        span
    };
    let quotient_size: i64 = dividend_size / span_size;
    assert(0 <= dividend_size / span_size <= dividend_size) by (nonlinear_arith)
        requires
            dividend_size >= 0,
            span_size >= 1,
    ;
    let quotient: i64 = if (dividend < 0) != (span < 0) {
        -quotient_size
    } else {
        quotient_size
    };
    if quotient < -32768 {
        i16::MIN
    } else if quotient > 32767 {
        i16::MAX
    } else {
        quotient as i16
    }
}

/// What the readings seen so far have made of buttons and axes.
struct Sensed {
    buttons: PinputGamepadButtons,
    axes: [i16; 4],
    button_index: usize,
    axis_index: usize,
}

impl Sensed {
    spec fn holds(self, readings: Seq<Reading>) -> bool {
        let buttons = readings_of(readings, SensorType::Button);
        let pressures = readings_of(readings, SensorType::Pressure);
        &&& self.buttons.bits == sensed_buttons(readings)
        &&& self.axes@[0] == sensed_axis(readings, 0)
        &&& self.axes@[1] == sensed_axis(readings, 1)
        &&& self.axes@[2] == sensed_axis(readings, 2)
        &&& self.axes@[3] == sensed_axis(readings, 3)
        &&& self.button_index == if buttons.len() < 4 {
            buttons.len()
        } else {
            4
        }
        &&& self.axis_index == if pressures.len() < 4 {
            pressures.len()
        } else {
            4
        }
    }

    fn take(&mut self, sensor_type: SensorType, range: SensorRange, value: i32, Ghost(seen): Ghost<
        Seq<Reading>,
    >)
        requires
            old(self).holds(seen),
        ensures
            final(self).holds(seen.push(Reading { sensor_type, range, value })),
    {
        let ghost reading = Reading { sensor_type, range, value };
        let ghost after = seen.push(reading);
        proof {
            assert(after.drop_last() =~= seen);
        }
        match sensor_type {
            SensorType::Button => {
                if self.button_index < 4 {
                    if reading_is_pressed(range, value) {
                        let mask = if self.button_index == 0 {
                            PinputGamepadButtons::A
                        } else if self.button_index == 1 {
                            PinputGamepadButtons::B
                        } else if self.button_index == 2 {
                            PinputGamepadButtons::X
                        } else {
                            PinputGamepadButtons::Y
                        };
                        self.buttons.insert(mask);
                    }
                    self.button_index += 1;
                }
            },
            SensorType::Pressure => {
                if self.axis_index < 4 {
                    self.axes[self.axis_index] = reading_axis(range, value);
                    self.axis_index += 1;
                }
            },
            _ => {},
        }
    }
}

/// The vibration that the cartridge's rumble bytes in `gamepad` ask of a
/// haptic device.
pub fn vibrate_command(haptic_device: &HapticDevice, gamepad: &PinputGamepad) -> (command: Option<
    VibrateCommand,
>)
    ensures
        command == haptic_device.vibration_for(*gamepad),
{
    if haptic_device.num_vibes == 0 {
        None
    } else if haptic_device.num_vibes == 2 {
        Some(VibrateCommand::SpeedVec(gamepad.lo_freq_rumble, gamepad.hi_freq_rumble))
    } else if gamepad.lo_freq_rumble >= gamepad.hi_freq_rumble {
        Some(VibrateCommand::Speed(gamepad.lo_freq_rumble))
    } else {
        Some(VibrateCommand::Speed(gamepad.hi_freq_rumble))
    }
}

impl HapticDevice {
    /// Whether the battery of this device has to be polled.
    pub fn needs_battery_monitor(&self) -> (needed: bool)
        ensures
            needed == self.wants_battery_monitor(),
    {
        self.battery_level.is_some()
    }

    /// Whether the readings of this device have to be listened for: whether
    /// any of its inputs reports a value.
    pub fn needs_sensor_events(&self) -> (needed: bool)
        ensures
            needed == self.wants_sensor_events(),
    {
        let mut i: usize = 0;
        while i < self.inputs.len()
            invariant
                i <= self.inputs.len(),
                count_channels(self.inputs@.take(i as int)) == 0,
            decreases self.inputs.len() - i,
        {
            proof {
                assert(self.inputs@.take(i + 1).drop_last() =~= self.inputs@.take(i as int));
                lemma_count_channels_grows(self.inputs@, i + 1);
            }
            if self.inputs[i].ranges.len() > 0 {
                return true;
            }
            i += 1;
        }
        proof {
            assert(self.inputs@.take(self.inputs.len() as int) =~= self.inputs@);
        }
        false
    }

    /// The sensors to subscribe to: each input by its place among the
    /// inputs, with its kind.
    pub fn subscriptions(&self) -> (wanted: Vec<(usize, SensorType)>)
        ensures
            wanted@.len() == self.inputs@.len(),
            forall|i: int|
                0 <= i < wanted@.len() ==> wanted@[i] == (i as usize, self.inputs@[i].sensor_type),
    {
        let mut wanted: Vec<(usize, SensorType)> = Vec::new();
        let mut i: usize = 0;
        while i < self.inputs.len()
            invariant
                i <= self.inputs.len(),
                wanted@.len() == i,
                forall|k: int|
                    0 <= k < i ==> wanted@[k] == (k as usize, self.inputs@[k].sensor_type),
            decreases self.inputs.len() - i,
        {
            wanted.push((i, self.inputs[i].sensor_type));
            i += 1;
        }
        wanted
    }

    /// This device after it has reported a battery level. A device without a
    /// battery sensor keeps none.
    pub open spec fn with_battery(self, level: u8) -> HapticDevice {
        HapticDevice {
            index: self.index,
            num_vibes: self.num_vibes,
            battery_level: if self.battery_level is Some {
                Some(level)
            } else {
                None
            },
            inputs: self.inputs,
        }
    }

    /// Keeps a battery level that the device reported. A device without a
    /// battery sensor keeps none.
    pub fn record_battery(&mut self, level: u8)
        ensures
            *final(self) == old(self).with_battery(level),
    {
        if self.battery_level.is_some() {
            self.battery_level = Some(level);
        }
    }

    /// Whether input `sensor_index` exists and has a place for each of
    /// `count` values.
    pub open spec fn accepts_reading(self, sensor_index: usize, count: nat) -> bool {
        &&& sensor_index < self.inputs@.len()
        &&& count <= self.inputs@[sensor_index as int].values@.len()
    }

    /// Whether input `sensor_index` exists and has a place for each of
    /// `count` values.
    pub fn can_record_reading(&self, sensor_index: usize, count: usize) -> (accepted: bool)
        ensures
            accepted == self.accepts_reading(sensor_index, count as nat),
    {
        sensor_index < self.inputs.len() && count <= self.inputs[sensor_index].values.len()
    }

    /// Whether `after` is this device with the values of a reading kept:
    /// they have replaced the first values of input `sensor_index`, one for
    /// one, and nothing else has changed.
    pub open spec fn with_reading(
        self,
        sensor_index: usize,
        data: Seq<i32>,
        after: HapticDevice,
    ) -> bool {
        let at = sensor_index as int;
        &&& after.index == self.index
        &&& after.num_vibes == self.num_vibes
        &&& after.battery_level == self.battery_level
        &&& after.inputs@.len() == self.inputs@.len()
        &&& forall|k: int|
            0 <= k < self.inputs@.len() && k != at ==> after.inputs@[k] == self.inputs@[k]
        &&& after.inputs@[at].sensor_type == self.inputs@[at].sensor_type
        &&& after.inputs@[at].ranges == self.inputs@[at].ranges
        &&& after.inputs@[at].values@ == data + self.inputs@[at].values@.skip(data.len() as int)
    }

    /// Keeps the values of a sensor reading: they replace the first values
    /// of input `sensor_index`, one for one.
    pub fn record_reading(&mut self, sensor_index: usize, data: &Vec<i32>)
        requires
            old(self).accepts_reading(sensor_index, data@.len()),
        ensures
            old(self).with_reading(sensor_index, data@, *final(self)),
    {
        let ghost before = self.inputs@[sensor_index as int].values@;
        let mut i: usize = 0;
        while i < data.len()
            invariant
                i <= data.len(),
                sensor_index < self.inputs@.len(),
                data@.len() <= before.len(),
                self.index == old(self).index,
                self.num_vibes == old(self).num_vibes,
                self.battery_level == old(self).battery_level,
                self.inputs@.len() == old(self).inputs@.len(),
                forall|k: int|
                    0 <= k < old(self).inputs@.len() && k != sensor_index ==> self.inputs@[k]
                        == old(self).inputs@[k],
                self.inputs@[sensor_index as int].sensor_type == old(
                    self,
                ).inputs@[sensor_index as int].sensor_type,
                self.inputs@[sensor_index as int].ranges == old(
                    self,
                ).inputs@[sensor_index as int].ranges,
                self.inputs@[sensor_index as int].values@ == data@.take(i as int) + before.skip(
                    i as int,
                ),
            decreases data.len() - i,
        {
            let ghost values = self.inputs@[sensor_index as int].values@;
            self.inputs[sensor_index].values[i] = data[i];
            proof {
                assert(values.update(i as int, data@[i as int]) =~= data@.take(i + 1) + before.skip(
                    i + 1,
                ));
            }
            i += 1;
        }
        proof {
            assert(data@.take(data.len() as int) =~= data@);
        }
    }
}

proof fn lemma_count_channels_grows(inputs: Seq<HapticInput>, upto: int)
    requires
        0 <= upto <= inputs.len(),
    ensures
        count_channels(inputs.take(upto)) <= count_channels(inputs),
    decreases inputs.len() - upto,
{
    if upto < inputs.len() {
        assert(inputs.take(upto + 1).drop_last() =~= inputs.take(upto));
        lemma_count_channels_grows(inputs, upto + 1);
    } else {
        assert(inputs.take(upto) =~= inputs);
    }
}

/// What the haptic backend reports about its devices.
#[derive(Clone, Debug)]
pub enum ClientEvent {
    /// A device was attached.
    DeviceAdded(HapticDevice),
    /// The device with this index is gone.
    DeviceRemoved(u32),
    /// The connection to the backend ended.
    ServerDisconnect,
    /// The backend reported an error.
    Error,
    /// Anything else.
    Other,
}

/// The haptic devices that are attached, kept in the order of their index
/// and each index once.
#[derive(Debug)]
pub struct HapticSubsystem {
    devices: Vec<HapticDevice>,
}

/// Whether the devices stand in strictly increasing order of index.
pub open spec fn ordered(devices: Seq<HapticDevice>) -> bool {
    forall|i: int, j: int| 0 <= i < j < devices.len() ==> devices[i].index < devices[j].index
}

/// Whether a device with this index is among the devices.
pub open spec fn has_index(devices: Seq<HapticDevice>, index: u32) -> bool {
    exists|i: int| 0 <= i < devices.len() && devices[i].index == index
}

/// The devices without those of one index, in the same order.
pub open spec fn without_index(devices: Seq<HapticDevice>, index: u32) -> Seq<HapticDevice>
    decreases devices.len(),
{
    if devices.len() == 0 {
        Seq::empty()
    } else if devices.last().index == index {
        without_index(devices.drop_last(), index)
    } else {
        without_index(devices.drop_last(), index).push(devices.last())
    }
}

impl View for HapticSubsystem {
    type V = Seq<HapticDevice>;

    closed spec fn view(&self) -> Seq<HapticDevice> {
        self.devices@
    }
}

impl HapticSubsystem {
    #[verifier::type_invariant]
    spec fn in_order(self) -> bool {
        ordered(self.devices@)
    }

    /// What holds of every device list: it is ordered by index, and so has
    /// no index twice.
    pub open spec fn well_formed(&self) -> bool {
        ordered(self@)
    }

    /// Whether `after` is `before` with `device` put in at some place.
    pub open spec fn inserted(
        before: Seq<HapticDevice>,
        device: HapticDevice,
        after: Seq<HapticDevice>,
    ) -> bool {
        exists|at: int| 0 <= at <= before.len() && after == before.insert(at, device)
    }

    /// A subsystem without devices.
    pub fn new() -> (subsystem: Self)
        ensures
            subsystem.well_formed(),
            subsystem@ == Seq::<HapticDevice>::empty(),
    {
        HapticSubsystem { devices: Vec::new() }
    }

    /// The attached devices in the order of their index.
    pub fn devices(&self) -> (devices: &Vec<HapticDevice>)
        ensures
            devices@ == self@,
            ordered(devices@),
    {
        proof {
            use_type_invariant(self);
        }
        &self.devices
    }

    fn find(&self, index: u32) -> (at: usize)
        ensures
            self.well_formed(),
            at <= self@.len(),
            forall|i: int| 0 <= i < at ==> self@[i].index < index,
            forall|i: int| at <= i < self@.len() ==> self@[i].index >= index,
            has_index(self@, index) <==> (at < self@.len() && self@[at as int].index == index),
    {
        proof {
            use_type_invariant(self);
        }
        let mut at: usize = 0;
        while at < self.devices.len() && self.devices[at].index < index
            invariant
                at <= self.devices@.len(),
                forall|i: int| 0 <= i < at ==> self.devices@[i].index < index,
            decreases self.devices.len() - at,
        {
            at += 1;
        }
        at
    }

    fn exchange(&mut self, devices: Vec<HapticDevice>) -> (previous: Vec<HapticDevice>)
        requires
            ordered(devices@),
        ensures
            previous@ == old(self)@,
            final(self)@ == devices@,
    {
        let mut devices = devices;
        core::mem::swap(&mut self.devices, &mut devices);
        devices
    }

    /// Takes in a newly attached device, at its place in the order. Where a
    /// device with the same index is kept already, that one stays and the new
    /// one is dropped.
    pub fn insert(&mut self, device: HapticDevice) -> (added: bool)
        ensures
            final(self).well_formed(),
            added == !has_index(old(self)@, device.index),
            added ==> Self::inserted(old(self)@, device, final(self)@),
            !added ==> final(self)@ == old(self)@,
    {
        let at = self.find(device.index);
        if at < self.devices.len() && self.devices[at].index == device.index {
            false
        } else {
            let ghost before = self.devices@;
            let mut devices = self.exchange(Vec::new());
            devices.insert(at, device);
            proof {
                assert(devices@ == before.insert(at as int, device));
                assert forall|i: int, j: int| 0 <= i < j < devices@.len() implies devices@[i].index
                    < devices@[j].index by {
                    if i < at {
                        assert(devices@[i] == before[i]);
                    } else if i > at {
                        assert(devices@[i] == before[i - 1]);
                    }
                    if j < at {
                        assert(devices@[j] == before[j]);
                    } else if j > at {
                        assert(devices@[j] == before[j - 1]);
                    }
                }
            }
            let _ = self.exchange(devices);
            true
        }
    }

    /// Forgets the device with this index, if it is kept.
    pub fn remove(&mut self, index: u32) -> (removed: bool)
        ensures
            final(self).well_formed(),
            removed == has_index(old(self)@, index),
            final(self)@ == without_index(old(self)@, index),
            !has_index(final(self)@, index),
            removed ==> exists|at: int|
                0 <= at < old(self)@.len() && (#[trigger] old(self)@[at]).index == index
                    && final(self)@ == old(self)@.remove(at),
            !removed ==> final(self)@ == old(self)@,
    {
        let at = self.find(index);
        proof {
            lemma_without_index(self.devices@, index);
        }
        if at < self.devices.len() && self.devices[at].index == index {
            let ghost before = self.devices@;
            let mut devices = self.exchange(Vec::new());
            let _ = devices.remove(at);
            proof {
                assert(devices@ == before.remove(at as int));
                assert forall|i: int| 0 <= i < devices@.len() implies devices@[i].index
                    != index by {
                    if i < at {
                        assert(devices@[i] == before[i]);
                    } else {
                        assert(devices@[i] == before[i + 1]);
                    }
                }
            }
            let _ = self.exchange(devices);
            true
        } else {
            false
        }
    }

    /// Takes in what the haptic backend reports, and says whether to go on
    /// listening: until the connection to the backend ends.
    pub fn handle_client_event(&mut self, event: ClientEvent) -> (listening: bool)
        ensures
            final(self).well_formed(),
            listening == !(event is ServerDisconnect),
            match event {
                ClientEvent::DeviceAdded(device) => if has_index(old(self)@, device.index) {
                    final(self)@ == old(self)@
                } else {
                    Self::inserted(old(self)@, device, final(self)@)
                },
                ClientEvent::DeviceRemoved(index) => final(self)@ == without_index(
                    old(self)@,
                    index,
                ),
                _ => final(self)@ == old(self)@,
            },
    {
        proof {
            use_type_invariant(&*self);
        }
        match event {
            ClientEvent::DeviceAdded(device) => {
                let _ = self.insert(device);
                true
            },
            ClientEvent::DeviceRemoved(index) => {
                let _ = self.remove(index);
                true
            },
            ClientEvent::ServerDisconnect => false,
            _ => true,
        }
    }

    /// Keeps a battery level that the device with this index reported, and
    /// says whether such a device is kept.
    pub fn record_battery(&mut self, index: u32, level: u8) -> (known: bool)
        ensures
            final(self).well_formed(),
            known == has_index(old(self)@, index),
            final(self)@.len() == old(self)@.len(),
            forall|i: int|
                0 <= i < old(self)@.len() ==> #[trigger] final(self)@[i] == if old(self)@[i].index
                    == index {
                    old(self)@[i].with_battery(level)
                } else {
                    old(self)@[i]
                },
    {
        let at = self.find(index);
        if at < self.devices.len() && self.devices[at].index == index {
            let mut devices = self.exchange(Vec::new());
            devices[at].record_battery(level);
            let _ = self.exchange(devices);
            true
        } else {
            false
        }
    }

    /// Keeps the values of a sensor reading of the device with this index,
    /// and says whether they were kept: whether such a device is kept and
    /// has a place for them. Otherwise nothing changes.
    pub fn record_reading(&mut self, index: u32, sensor_index: usize, data: &Vec<i32>) -> (kept:
        bool)
        ensures
            final(self).well_formed(),
            kept == exists|i: int|
                0 <= i < old(self)@.len() && old(self)@[i].index == index && (#[trigger] old(
                    self,
                )@[i]).accepts_reading(sensor_index, data@.len()),
            final(self)@.len() == old(self)@.len(),
            forall|i: int|
                0 <= i < old(self)@.len() ==> if kept && old(self)@[i].index == index {
                    old(self)@[i].with_reading(sensor_index, data@, #[trigger] final(self)@[i])
                } else {
                    final(self)@[i] == old(self)@[i]
                },
    {
        let at = self.find(index);
        if at < self.devices.len() && self.devices[at].index == index
            && self.devices[at].can_record_reading(sensor_index, data.len()) {
            let mut devices = self.exchange(Vec::new());
            devices[at].record_reading(sensor_index, data);
            let _ = self.exchange(devices);
            true
        } else {
            false
        }
    }

    /// Fills a slot from the state of a haptic device, and says what vibration
    /// the slot's rumble bytes ask of it.
    ///
    /// The device is reported as a connected haptic device, with rumble if it
    /// has a vibrator and with a battery if it has a battery sensor. Its first
    /// four pressure readings become the stick axes and its first four button
    /// readings the buttons A, B, X and Y. The two rumble bytes that the
    /// cartridge writes are left alone.
    pub fn sync_haptic_device(
        &self,
        haptic_device: &HapticDevice,
        gamepad: &mut PinputGamepad,
    ) -> (command: Option<VibrateCommand>)
        ensures
            *final(gamepad) == haptic_device.synced(*old(gamepad)),
            command == haptic_device.vibration_for(*old(gamepad)),
    {
        let mut flags = PinputGamepadFlags::from_bits(
            PinputGamepadFlags::HAPTIC_DEVICE | PinputGamepadFlags::CONNECTED,
        );
        if haptic_device.num_vibes > 0 {
            flags.insert(PinputGamepadFlags::HAS_RUMBLE);
        }
        let battery = match haptic_device.battery_level {
            Some(level) => {
                flags.insert(PinputGamepadFlags::HAS_BATTERY);
                level
            },
            None => 0,
        };
        let mut sensed = Sensed {
            buttons: PinputGamepadButtons::default(),
            axes: [0i16; 4],
            button_index: 0,
            axis_index: 0,
        };
        let mut i: usize = 0;
        while i < haptic_device.inputs.len()
            invariant
                i <= haptic_device.inputs.len(),
                sensed.holds(all_readings(haptic_device.inputs@.take(i as int))),
            decreases haptic_device.inputs.len() - i,
        {
            let input = &haptic_device.inputs[i];
            let channels = if input.ranges.len() <= input.values.len() {
                input.ranges.len()
            } else {
                input.values.len()
            };
            let ghost before = all_readings(haptic_device.inputs@.take(i as int));
            let mut j: usize = 0;
            while j < channels
                invariant
                    j <= channels,
                    channels == input.readings().len(),
                    channels <= input.ranges.len(),
                    channels <= input.values.len(),
                    sensed.holds(before + input.readings().take(j as int)),
                decreases channels - j,
            {
                let ghost seen = before + input.readings().take(j as int);
                sensed.take(input.sensor_type, input.ranges[j], input.values[j], Ghost(seen));
                proof {
                    assert(seen.push(input.readings()[j as int]) =~= before + input.readings().take(
                        j + 1,
                    ));
                }
                j += 1;
            }
            proof {
                assert(input.readings().take(channels as int) =~= input.readings());
                assert(haptic_device.inputs@.take(i + 1).drop_last() =~= haptic_device.inputs@.take(
                    i as int,
                ));
            }
            i += 1;
        }
        proof {
            assert(haptic_device.inputs@.take(haptic_device.inputs.len() as int)
                =~= haptic_device.inputs@);
        }
        let command = vibrate_command(haptic_device, gamepad);
        gamepad.flags = flags;
        gamepad.battery = battery;
        gamepad.buttons = sensed.buttons;
        gamepad.left_trigger = 0;
        gamepad.right_trigger = 0;
        gamepad.left_stick_x = sensed.axes[0];
        gamepad.left_stick_y = sensed.axes[1];
        gamepad.right_stick_x = sensed.axes[2];
        gamepad.right_stick_y = sensed.axes[3];
        command
    }
}

proof fn lemma_without_index(devices: Seq<HapticDevice>, index: u32)
    requires
        ordered(devices),
    ensures
        !has_index(devices, index) ==> without_index(devices, index) == devices,
        forall|at: int|
            0 <= at < devices.len() && devices[at].index == index ==> without_index(devices, index)
                == devices.remove(at),
    decreases devices.len(),
{
    if devices.len() > 0 {
        let rest = devices.drop_last();
        lemma_without_index(rest, index);
        if devices.last().index == index {
            assert(!has_index(rest, index)) by {
                if has_index(rest, index) {
                    let i = choose|i: int| 0 <= i < rest.len() && rest[i].index == index;
                    assert(devices[i].index < devices[devices.len() - 1].index);
                }
            }
            assert forall|at: int|
                0 <= at < devices.len() && devices[at].index == index implies without_index(
                devices,
                index,
            ) == devices.remove(at) by {
                assert(at == devices.len() - 1) by {
                    if at < devices.len() - 1 {
                        assert(devices[at].index < devices[devices.len() - 1].index);
                    }
                }
                assert(devices.remove(at) =~= rest);
            }
        } else {
            if !has_index(devices, index) {
                assert(!has_index(rest, index)) by {
                    if has_index(rest, index) {
                        let i = choose|i: int| 0 <= i < rest.len() && rest[i].index == index;
                        assert(devices[i].index == index);
                    }
                }
                assert(rest.push(devices.last()) =~= devices);
            }
            assert forall|at: int|
                0 <= at < devices.len() && devices[at].index == index implies without_index(
                devices,
                index,
            ) == devices.remove(at) by {
                assert(rest[at].index == index);
                assert(rest.remove(at).push(devices.last()) =~= devices.remove(at));
            }
        }
    }
}

} // verus!
