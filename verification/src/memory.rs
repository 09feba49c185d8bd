//! The regions of a process's memory: which of them can hold the GPIO area
//! of a runtime, and where in a region's bytes the magic stands.

use vstd::prelude::*;
use crate::constants::{magic_seq, pinput_magic_bytes};
use crate::detector::{is_pico8_exe, pico8_verdict, InfoPlist};
use crate::paths::Platform;
use crate::runtime_connection::{Error, RuntimeFlavor};
use crate::search::{find_bytes, first_occurrence, occurs};

verus! {

/// One region of the memory map of a process.
#[derive(Clone, Debug, PartialEq, Eq)]
pub struct MemoryRegion {
    /// The address of its first byte.
    pub start: usize,
    /// Its length in bytes.
    pub size: usize,
    pub readable: bool,
    pub writable: bool,
    pub executable: bool,
    /// The path of the file that the region is mapped from, if any.
    pub backing_path: Option<Vec<u8>>,
}

impl MemoryRegion {
    /// Whether the region can be read and written and not run.
    pub open spec fn is_plain_data(self) -> bool {
        self.readable && self.writable && !self.executable
    }

    /// Whether the region can be read and written, and not run, and is
    /// mapped from no file.
    pub open spec fn is_anonymous_data(self) -> bool {
        self.is_plain_data() && self.backing_path is None
    }

    /// Whether the region has the permissions of the data of PICO-8. The
    /// Windows version is mapped in one piece that can be read, written and
    /// run.
    pub open spec fn has_pico8_permissions(self, platform: Platform) -> bool {
        if platform is Windows {
            self.readable && self.writable && self.executable
        } else {
            self.is_plain_data()
        }
    }

    /// Whether the region can hold the GPIO area of a PICO-8, or nothing
    /// where that cannot be told. On Linux the area lies in memory that is
    /// mapped from no file. Elsewhere it lies in the data of the executable,
    /// so the region has to be mapped from a file that is PICO-8, and
    /// nothing can be told where `is_pico8_exe` cannot tell that of the file.
    pub open spec fn pico8_data_verdict(
        self,
        platform: Platform,
        info_plist: Option<&InfoPlist>,
    ) -> Option<bool> {
        if platform is Linux {
            Some(self.is_anonymous_data())
        } else {
            match self.backing_path {
                None => Some(false),
                Some(path) => match pico8_verdict(platform, path@, info_plist) {
                    Some(pico8) => Some(self.has_pico8_permissions(platform) && pico8),
                    None => None,
                },
            }
        }
    }

    /// Whether the region is searched for the GPIO area of a runtime of
    /// this flavor. A region of which nothing can be told is passed over.
    pub open spec fn is_searched(
        self,
        platform: Platform,
        flavor: RuntimeFlavor,
        info_plist: Option<&InfoPlist>,
    ) -> bool {
        match flavor {
            RuntimeFlavor::Pico8 => self.pico8_data_verdict(platform, info_plist) == Some(true),
            RuntimeFlavor::Wasm4 => self.is_anonymous_data(),
        }
    }
}

/// Whether a region can hold the GPIO area of a PICO-8. `info_plist` is as
/// for `is_pico8_exe`, for the file that the region is mapped from. Fails as
/// `is_pico8_exe` does for that file, except on Linux, where the file is
/// not looked at.
pub fn is_pico8_data_segment(
    platform: Platform,
    map: &MemoryRegion,
    info_plist: Option<&InfoPlist>,
) -> (found: Result<bool, Error>)
    ensures
        match found {
            Ok(data) => map.pico8_data_verdict(platform, info_plist) == Some(data),
            Err(Error::AppBundle { path: outside }) => map.pico8_data_verdict(platform, info_plist)
                is None && map.backing_path is Some && outside@ == map.backing_path.unwrap()@,
            Err(Error::Plist) => map.pico8_data_verdict(platform, info_plist) is None
                && info_plist is None,
            Err(_) => false,
        },
{
    if let Platform::Linux = platform {
        return Ok(map.readable && map.writable && !map.executable && map.backing_path.is_none());
    }
    let permitted = if let Platform::Windows = platform {
        map.readable && map.writable && map.executable
    } else {
        map.readable && map.writable && !map.executable
    };
    let from_pico8 = match &map.backing_path {
        Some(path) => match is_pico8_exe(platform, path.as_slice(), info_plist) {
            Ok(pico8) => pico8,
            Err(error) => {
                return Err(error);
            },
        },
        None => false,
    };
    Ok(permitted && from_pico8)
}

/// Whether a region can hold the GPIO area of a WASM-4: the memory of a
/// cartridge is always mapped from no file. Never fails.
pub fn is_wasm4_data_segment(map: &MemoryRegion) -> (found: Result<bool, Error>)
    ensures
        found is Ok,
        found.unwrap() == map.is_anonymous_data(),
{
    Ok(map.readable && map.writable && !map.executable && map.backing_path.is_none())
}

/// Whether a region is searched for the GPIO area of a runtime of this
/// flavor.
pub fn is_data_segment(
    platform: Platform,
    flavor: RuntimeFlavor,
    map: &MemoryRegion,
    info_plist: Option<&InfoPlist>,
) -> (searched: bool)
    ensures
        searched == map.is_searched(platform, flavor, info_plist),
{
    let found = match flavor {
        RuntimeFlavor::Pico8 => is_pico8_data_segment(platform, map, info_plist),
        RuntimeFlavor::Wasm4 => is_wasm4_data_segment(map),
    };
    match found {
        Ok(searched) => searched,
        Err(_) => false,
    }
}

/// Where the magic bytes first stand in the bytes of a region, counted from
/// the region's first byte.
pub fn find_pinput_magic(data: &[u8]) -> (found: Result<usize, Error>)
    ensures
        match found {
            Ok(offset) => first_occurrence(data@, magic_seq(), offset as int),
            Err(Error::PinputMagicNotFound) => !occurs(data@, magic_seq()),
            Err(_) => false,
        },
{
    let magic = pinput_magic_bytes();
    match find_bytes(data, magic.as_slice()) {
        Some(offset) => Ok(offset),
        None => Err(Error::PinputMagicNotFound),
    }
}

} // verus!
