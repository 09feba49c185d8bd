//! The sync engine: what the daemon decides between one action on the
//! outside world and the next.
//!
//! The daemon runs two loops in turn. The scan loop looks for a runtime
//! once a second. The sync loop then, sixty times a second, reads the GPIO
//! area, fills the gamepad slots from the devices and writes the area back,
//! until the runtime quits. Waiting, reading and writing are the caller's;
//! every decision is made here.

use vstd::prelude::*;
use crate::constants::{magic_seq, pinput_magic_bytes, PINPUT_MAX_GAMEPADS};
use crate::controller::{rumble_command, sync_gamepad, RumbleCommand, SdlGamepad};
use crate::error::Error;
use crate::gamepad::{
    array_parse,
    array_wire,
    empty_gamepads,
    gamepads_from_bytes,
    zero_array,
    PinputGamepad,
    PinputGamepadArray,
};
use crate::haptic::{HapticDevice, HapticSubsystem, VibrateCommand};
use crate::paths::Platform;
use crate::runtime_connection;
use crate::runtime_connection::RuntimeConnection;
use crate::search::{ascii, literal, same_bytes};

verus! {

/// The game controllers by slot: the controller at the backend's index `k`
/// stands in slot `k` for as long as it is open.
pub type InputSlots = [Option<SdlGamepad>; PINPUT_MAX_GAMEPADS];

/// What comes back from the action that the scan loop asked for.
#[derive(Debug, PartialEq, Eq)]
pub enum ScanEvent {
    /// The loop begins.
    Started,
    /// The wait for the next tick has ended: with a tick, or without one
    /// because the timer is gone.
    Tick(bool),
    /// The attempt to bind a runtime has ended.
    Attempt(Result<RuntimeConnection, runtime_connection::Error>),
}

/// What the scan loop does next.
#[derive(Debug, PartialEq, Eq)]
pub enum ScanAction {
    /// Wait for the next tick, a second from the last.
    AwaitTick,
    /// Try to bind a runtime.
    TryConnect,
    /// Go over to the sync loop with this connection.
    Connected(RuntimeConnection),
    /// Stop the daemon.
    Stop(Error),
}

/// What the scan loop does next, as a value to compare with.
pub open spec fn scan_decision(keep_going: bool, event: ScanEvent) -> ScanAction {
    match event {
        ScanEvent::Tick(true) => ScanAction::TryConnect,
        ScanEvent::Tick(false) => ScanAction::Stop(Error::RecvError),
        ScanEvent::Attempt(Ok(connection)) => ScanAction::Connected(connection),
        _ => if keep_going {
            ScanAction::AwaitTick
        } else {
            ScanAction::Stop(Error::KilledByCtrlC)
        },
    }
}

/// Decides what the scan loop does next. `keep_going` is false once the
/// interrupt signal has come; it is looked at before each wait.
///
/// A failed attempt is no reason to stop: the runtime may be started later,
/// or load a cartridge that announces itself later.
pub fn next_scan_action(keep_going: bool, event: ScanEvent) -> (action: ScanAction)
    ensures
        action == scan_decision(keep_going, event),
{
    match event {
        ScanEvent::Tick(true) => ScanAction::TryConnect,
        ScanEvent::Tick(false) => ScanAction::Stop(Error::RecvError),
        ScanEvent::Attempt(Ok(connection)) => ScanAction::Connected(connection),
        _ => if keep_going {
            ScanAction::AwaitTick
        } else {
            ScanAction::Stop(Error::KilledByCtrlC)
        },
    }
}

/// What comes back from the action that the sync loop asked for.
#[derive(Debug, PartialEq, Eq)]
pub enum SyncEvent {
    /// The loop begins.
    Started,
    /// The wait for the next tick has ended: with a tick, or without one
    /// because the timer is gone.
    Tick(bool),
    /// The first sixteen bytes of GPIO as read, or nothing if the read
    /// failed.
    Magic(Option<[u8; 16]>),
    /// The 128 bytes of GPIO as read, or nothing if the read failed.
    Gamepads(Option<[u8; 128]>),
    /// Whether the 128 bytes of GPIO were written.
    Written(bool),
}

/// What the sync loop does next.
#[derive(Debug, PartialEq, Eq)]
pub enum SyncAction {
    /// Wait for the next tick, a frame from the last.
    AwaitTick,
    /// Bring the state of the controllers up to date and read the first
    /// sixteen bytes of GPIO.
    ReadMagic,
    /// Read the 128 bytes of GPIO.
    ReadGamepads,
    /// Fill the slots of this array from the devices and write it to GPIO.
    Fill(PinputGamepadArray),
    /// Leave the loop and scan anew: the runtime has most likely quit.
    Rescan,
    /// Stop the daemon.
    Stop(Error),
}

/// The array that a frame begins with, given what was read of GPIO: eight
/// empty slots where the magic stands at its start, for then the cartridge
/// has just begun and whatever else GPIO holds is stale; else the records
/// that GPIO holds.
pub open spec fn frame_start(magic: Seq<u8>, gpio: Seq<u8>) -> Seq<PinputGamepad> {
    if magic == magic_seq() {
        zero_array()
    } else {
        array_parse(gpio)
    }
}

/// What the sync loop does next, as a predicate to compare with.
pub open spec fn is_sync_decision(keep_going: bool, event: SyncEvent, action: SyncAction) -> bool {
    match event {
        SyncEvent::Tick(true) => action is ReadMagic,
        SyncEvent::Tick(false) => action == SyncAction::Stop(Error::RecvError),
        SyncEvent::Magic(None) => action is Rescan,
        SyncEvent::Magic(Some(magic)) => if magic@ == magic_seq() {
            action is Fill && action->Fill_0@ == zero_array()
        } else {
            action is ReadGamepads
        },
        SyncEvent::Gamepads(None) => action is Rescan,
        SyncEvent::Gamepads(Some(gpio)) => action is Fill && action->Fill_0@ == array_parse(gpio@),
        SyncEvent::Written(false) => action is Rescan,
        _ => if keep_going {
            action is AwaitTick
        } else {
            action == SyncAction::Stop(Error::KilledByCtrlC)
        },
    }
}

/// Whether sixteen bytes are the magic that a cartridge announces itself
/// with.
pub fn is_pinput_magic(bytes: &[u8; 16]) -> (found: bool)
    ensures
        found == (bytes@ == magic_seq()),
{
    let magic = pinput_magic_bytes();
    same_bytes(bytes.as_slice(), magic.as_slice())
}

/// Decides what the sync loop does next. `keep_going` is false once the
/// interrupt signal has come; it is looked at before each wait.
///
/// Within one frame GPIO is read once, changed in the daemon's own memory
/// and written once. A read or write that fails ends the loop without an
/// error, and nothing is tried again on this connection.
pub fn next_sync_action(keep_going: bool, event: SyncEvent) -> (action: SyncAction)
    ensures
        is_sync_decision(keep_going, event, action),
{
    match event {
        SyncEvent::Tick(true) => SyncAction::ReadMagic,
        SyncEvent::Tick(false) => SyncAction::Stop(Error::RecvError),
        SyncEvent::Magic(None) => SyncAction::Rescan,
        SyncEvent::Magic(Some(magic)) => if is_pinput_magic(&magic) {
            SyncAction::Fill(empty_gamepads())
        } else {
            SyncAction::ReadGamepads
        },
        SyncEvent::Gamepads(None) => SyncAction::Rescan,
        SyncEvent::Gamepads(Some(gpio)) => SyncAction::Fill(gamepads_from_bytes(&gpio)),
        SyncEvent::Written(false) => SyncAction::Rescan,
        _ => if keep_going {
            SyncAction::AwaitTick
        } else {
            SyncAction::Stop(Error::KilledByCtrlC)
        },
    }
}

/// The record that a frame leaves in a slot that held `before`. The first
/// `num_joysticks` slots are those of the game controllers: a slot whose
/// controller is open is filled from it, the others stay as they are. The
/// haptic devices follow in the slots behind, for as many as there are
/// slots left. A slot behind those stays as it is.
pub open spec fn filled_slot(
    before: PinputGamepad,
    slot: int,
    controllers: Seq<Option<SdlGamepad>>,
    num_joysticks: usize,
    haptics: Seq<HapticDevice>,
) -> PinputGamepad {
    if slot < num_joysticks {
        match controllers[slot] {
            Some(controller) => controller.synced(before),
            None => before,
        }
    } else if slot - num_joysticks < haptics.len() {
        haptics[slot - num_joysticks].synced(before)
    } else {
        before
    }
}

/// The eight records that a frame leaves.
pub open spec fn filled(
    before: Seq<PinputGamepad>,
    controllers: Seq<Option<SdlGamepad>>,
    num_joysticks: usize,
    haptics: Seq<HapticDevice>,
) -> Seq<PinputGamepad> {
    Seq::new(8, |slot: int| filled_slot(before[slot], slot, controllers, num_joysticks, haptics))
}

/// The rumble command that a frame asks of the controller of a slot.
pub open spec fn rumble_of_slot(
    gamepad: PinputGamepad,
    slot: int,
    controllers: Seq<Option<SdlGamepad>>,
    num_joysticks: usize,
) -> Option<RumbleCommand> {
    if slot < num_joysticks {
        match controllers[slot] {
            Some(controller) => controller.rumble_for(gamepad),
            None => None,
        }
    } else {
        None
    }
}

/// The vibration that a frame asks of the haptic device of a slot, with the
/// index of that device.
pub open spec fn vibration_of_slot(
    gamepad: PinputGamepad,
    slot: int,
    num_joysticks: usize,
    haptics: Seq<HapticDevice>,
) -> Option<(u32, VibrateCommand)> {
    if num_joysticks <= slot && slot - num_joysticks < haptics.len() {
        match haptics[slot - num_joysticks].vibration_for(gamepad) {
            Some(command) => Some((haptics[slot - num_joysticks].index, command)),
            None => None,
        }
    } else {
        None
    }
}

/// The rumble commands that the cartridge's rumble bytes ask of the game
/// controllers, by slot. They are to be handed to the controllers before
/// the slots are filled; a controller that fails its command is marked with
/// `SdlGamepad::disable_rumble`.
pub fn rumble_commands(
    gamepads: &PinputGamepadArray,
    controllers: &InputSlots,
    num_joysticks: usize,
) -> (commands: [Option<RumbleCommand>; 8])
    ensures
        forall|slot: int|
            0 <= slot < 8 ==> commands@[slot] == rumble_of_slot(
                gamepads@[slot],
                slot,
                controllers@,
                num_joysticks,
            ),
{
    let mut commands: [Option<RumbleCommand>; 8] = [None; 8];
    let mut slot: usize = 0;
    while slot < PINPUT_MAX_GAMEPADS
        invariant
            slot <= 8,
            forall|k: int|
                0 <= k < slot ==> commands@[k] == rumble_of_slot(
                    gamepads@[k],
                    k,
                    controllers@,
                    num_joysticks,
                ),
            forall|k: int| slot <= k < 8 ==> commands@[k] is None,
        decreases 8 - slot,
    {
        if slot < num_joysticks {
            if let Some(controller) = &controllers[slot] {
                commands[slot] = rumble_command(controller, &gamepads[slot]);
            }
        }
        slot += 1;
    }
    commands
}

/// Fills the slots of a frame from the devices, and says what vibration the
/// cartridge's rumble bytes ask of each haptic device that has a slot.
///
/// The game controllers come first, each in the slot of its index at the
/// backend; `num_joysticks` is the number of joysticks that the backend
/// knows. The haptic devices follow in the slots behind, in the order of
/// their index, until the eighth slot is full. Attaching a game controller
/// therefore moves the haptic devices one slot on.
pub fn fill_gamepads(
    gamepads: &mut PinputGamepadArray,
    controllers: &InputSlots,
    num_joysticks: usize,
    haptic_subsystem: &HapticSubsystem,
) -> (vibrations: [Option<(u32, VibrateCommand)>; 8])
    ensures
        final(gamepads)@ == filled(old(gamepads)@, controllers@, num_joysticks, haptic_subsystem@),
        forall|slot: int|
            0 <= slot < 8 ==> vibrations@[slot] == vibration_of_slot(
                old(gamepads)@[slot],
                slot,
                num_joysticks,
                haptic_subsystem@,
            ),
{
    let haptics = haptic_subsystem.devices();
    let mut vibrations: [Option<(u32, VibrateCommand)>; 8] = [None; 8];
    let mut slot: usize = 0;
    while slot < PINPUT_MAX_GAMEPADS
        invariant
            slot <= 8,
            haptics@ == haptic_subsystem@,
            forall|k: int|
                0 <= k < slot ==> gamepads@[k] == filled_slot(
                    old(gamepads)@[k],
                    k,
                    controllers@,
                    num_joysticks,
                    haptics@,
                ),
            forall|k: int| slot <= k < 8 ==> gamepads@[k] == old(gamepads)@[k],
            forall|k: int|
                0 <= k < slot ==> vibrations@[k] == vibration_of_slot(
                    old(gamepads)@[k],
                    k,
                    num_joysticks,
                    haptics@,
                ),
            forall|k: int| slot <= k < 8 ==> vibrations@[k] is None,
        decreases 8 - slot,
    {
        let mut gamepad = gamepads[slot];
        if slot < num_joysticks {
            if let Some(controller) = &controllers[slot] {
                sync_gamepad(controller, &mut gamepad);
            }
        } else if slot - num_joysticks < haptics.len() {
            let device = &haptics[slot - num_joysticks];
            if let Some(command) = haptic_subsystem.sync_haptic_device(device, &mut gamepad) {
                vibrations[slot] = Some((device.index, command));
            }
        }
        gamepads[slot] = gamepad;
        slot += 1;
    }
    proof {
        assert(gamepads@ =~= filled(
            old(gamepads)@,
            controllers@,
            num_joysticks,
            haptic_subsystem@,
        ));
    }
    vibrations
}

/// The 128 bytes that one frame writes to GPIO, given the 128 bytes that
/// it finds there and the state of the devices.
pub open spec fn frame_image(
    gpio: Seq<u8>,
    controllers: Seq<Option<SdlGamepad>>,
    num_joysticks: usize,
    haptics: Seq<HapticDevice>,
) -> Seq<u8> {
    array_wire(filled(frame_start(gpio.take(16), gpio), controllers, num_joysticks, haptics))
}

/// A second frame writes what the first has written, as long as neither
/// the devices nor the cartridge change anything in between.
pub proof fn lemma_sync_idempotent(
    gpio: Seq<u8>,
    controllers: Seq<Option<SdlGamepad>>,
    num_joysticks: usize,
    haptics: Seq<HapticDevice>,
)
    requires
        gpio.len() == 128,
        controllers.len() == 8,
    ensures
        frame_image(
            frame_image(gpio, controllers, num_joysticks, haptics),
            controllers,
            num_joysticks,
            haptics,
        ) == frame_image(gpio, controllers, num_joysticks, haptics),
{
    let begun = frame_start(gpio.take(16), gpio);
    let first = filled(begun, controllers, num_joysticks, haptics);
    let image = array_wire(first);
    assert(frame_start(image.take(16), image) == first) by {
        crate::gamepad::lemma_array_parse_wire(first);
        lemma_first_record(first);
        lemma_slot_is_not_magic(gpio, controllers, num_joysticks, haptics);
    }
    let second = filled(first, controllers, num_joysticks, haptics);
    assert forall|slot: int| 0 <= slot < 8 implies second[slot] == first[slot] by {
        lemma_slot_settles(begun[slot], slot, controllers, num_joysticks, haptics);
    }
}

/// The first sixteen of the 128 bytes are the first record.
proof fn lemma_first_record(gamepads: Seq<PinputGamepad>)
    requires
        gamepads.len() == 8,
    ensures
        array_wire(gamepads).take(16) == gamepads[0].wire(),
{
}

/// Filling a slot again from the same devices changes nothing: a device
/// writes every field but the rumble bytes, and those it leaves alone.
proof fn lemma_slot_settles(
    before: PinputGamepad,
    slot: int,
    controllers: Seq<Option<SdlGamepad>>,
    num_joysticks: usize,
    haptics: Seq<HapticDevice>,
)
    ensures
        filled_slot(
            filled_slot(before, slot, controllers, num_joysticks, haptics),
            slot,
            controllers,
            num_joysticks,
            haptics,
        ) == filled_slot(before, slot, controllers, num_joysticks, haptics),
{
}

/// The record that a frame leaves in the first slot is never written as the
/// magic bytes: a device that fills the slot reports itself connected or
/// leaves the slot empty, and a slot that no device fills holds what was
/// read, which was not the magic.
proof fn lemma_slot_is_not_magic(
    gpio: Seq<u8>,
    controllers: Seq<Option<SdlGamepad>>,
    num_joysticks: usize,
    haptics: Seq<HapticDevice>,
)
    requires
        gpio.len() == 128,
        controllers.len() == 8,
    ensures
        filled(frame_start(gpio.take(16), gpio), controllers, num_joysticks, haptics)[0].wire()
            != magic_seq(),
{
    let begun = frame_start(gpio.take(16), gpio);
    let record = filled(begun, controllers, num_joysticks, haptics)[0];
    if gpio.take(16) != magic_seq() {
        PinputGamepad::lemma_wire_parse(gpio.take(16));
    }
    if 0 < num_joysticks {
        if let Some(controller) = controllers[0] {
            if controller.attached {
                crate::controller::lemma_controller_flags(controller);
            }
        }
    } else if haptics.len() > 0 {
        let device = haptics[0];
        crate::haptic::lemma_haptic_flags(device.num_vibes, device.battery_level is Some);
        assert(record == device.synced(begun[0]));
    }
}

/// What the daemon needs of the operating system before it starts, as a
/// value to compare with: on Linux the capability to trace other
/// processes, elsewhere nothing that can be tested.
pub open spec fn prerequisites_met(platform: Platform, has_ptrace: Result<bool, String>) -> Result<
    (),
    Error,
> {
    if platform is Linux {
        match has_ptrace {
            Ok(true) => Ok(()),
            Ok(false) => Err(Error::MissingPrerequisites),
            Err(reason) => Err(Error::CapsError(reason)),
        }
    } else {
        Ok(())
    }
}

/// Decides whether the daemon may start. `has_ptrace` says whether the
/// daemon holds the capability `CAP_SYS_PTRACE` in its effective set, or
/// why that could not be found out; it is looked at on Linux only.
pub fn check_prerequisites(platform: Platform, has_ptrace: Result<bool, String>) -> (checked:
    Result<(), Error>)
    ensures
        checked == prerequisites_met(platform, has_ptrace),
{
    if let Platform::Linux = platform {
        match has_ptrace {
            Ok(true) => Ok(()),
            Ok(false) => Err(Error::MissingPrerequisites),
            Err(reason) => Err(Error::CapsError(reason)),
        }
    } else {
        Ok(())
    }
}

/// The command that gives the daemon's executable the capability that it
/// lacks, for the user to run.
pub fn setcap_command(executable: &[u8]) -> (command: Vec<u8>)
    ensures
        command@ == ascii("sudo setcap cap_sys_ptrace+ep "@) + executable@,
{
    proof {
        reveal_strlit("sudo setcap cap_sys_ptrace+ep ");
    }
    let prefix = literal("sudo setcap cap_sys_ptrace+ep ");
    let mut command: Vec<u8> = Vec::new();
    let mut i: usize = 0;
    while i < prefix.len()
        invariant
            i <= prefix@.len(),
            command@ == prefix@.take(i as int),
        decreases prefix@.len() - i,
    {
        command.push(prefix[i]);
        i += 1;
    }
    let mut j: usize = 0;
    while j < executable.len()
        invariant
            j <= executable@.len(),
            command@ == prefix@ + executable@.take(j as int),
        decreases executable@.len() - j,
    {
        command.push(executable[j]);
        j += 1;
    }
    command
}

} // verus!
