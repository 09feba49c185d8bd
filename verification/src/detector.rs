//! The runtime detector: whether the executable of a process is PICO-8, a
//! cartridge exported from it, or a WASM-4 runtime.
//!
//! Detection goes by the path of the executable alone, and on macOS by the
//! `Info.plist` of the app bundle around it. Executables for Windows and
//! Linux carry nothing else to go by, so a PICO-8 under another file name
//! is not found there.

use vstd::prelude::*;
use vstd::utf8::encode_utf8;
use crate::paths::{
    are_parts,
    file_name,
    file_name_of,
    names,
    part_of,
    parts,
    split_path,
    Platform,
};
use crate::runtime_connection::{Error, RuntimeFlavor};
use crate::search::{ascii, ends_with, has_prefix, has_suffix, literal, same_bytes, starts_with};

verus! {

/// What is read of the `Info.plist` of a macOS app bundle.
#[derive(Clone, Debug, PartialEq, Eq)]
pub struct InfoPlist {
    /// `CFBundleExecutable`: the name of the bundle's main executable file.
    pub c_f_bundle_executable: String,
    /// `CFBundleIdentifier`: the identifier of the bundle.
    pub c_f_bundle_identifier: String,
}

/// The file name of the PICO-8 executable itself, as opposed to that of an
/// exported cartridge.
pub open spec fn pico8_executable_name(platform: Platform) -> Seq<u8> {
    if platform is Windows {
        ascii("pico8.exe"@)
    } else {
        ascii("pico8"@)
    }
}

/// Whether a file name is that of a WASM-4 runtime: one of the three that
/// the WASM-4 launcher unpacks, and not the launcher itself.
pub open spec fn is_wasm4_name(name: Seq<u8>) -> bool {
    name == ascii("wasm4-mac"@) || name == ascii("wasm4-linux"@) || name == ascii(
        "wasm4-windows.exe"@,
    )
}

/// Whether a file name has the extension `app`: it ends in `.app` and has
/// something before that.
pub open spec fn has_app_extension(name: Seq<u8>) -> bool {
    name.len() > 4 && ends_with(name, ascii(".app"@))
}

/// Which component of a path is the app bundle that the file lies in: the
/// last one with the extension `app`.
pub open spec fn bundle_index(names: Seq<Seq<u8>>) -> Option<int>
    decreases names.len(),
{
    if names.len() == 0 {
        None
    } else if has_app_extension(names.last()) {
        Some(names.len() - 1)
    } else {
        bundle_index(names.drop_last())
    }
}

/// The path of the app bundle that a file lies in: the path up to the end
/// of its last component with the extension `app`.
pub open spec fn app_bundle_of(platform: Platform, path: Seq<u8>) -> Option<Seq<u8>> {
    match bundle_index(names(platform, path)) {
        Some(k) => Some(path.take(parts(platform, path)[k].1)),
        None => None,
    }
}

/// Whether a bundle identifier is that of PICO-8 or of a cartridge exported
/// from it.
pub open spec fn in_pico8_bundle(identifier: Seq<u8>) -> bool {
    identifier == ascii("com.lexaloffle.pico8"@) || starts_with(
        identifier,
        ascii("com.pico8_author."@),
    )
}

/// Whether a path is `<bundle>/Contents/MacOS/<executable>`, where the
/// bundle is component `k` of the path: whether behind the bundle come
/// `Contents`, `MacOS` and the components of `executable`, and nothing else.
pub open spec fn is_bundle_main_executable(
    platform: Platform,
    path: Seq<u8>,
    k: int,
    executable: Seq<u8>,
) -> bool {
    names(platform, path).skip(k + 1) == seq![ascii("Contents"@), ascii("MacOS"@)] + names(
        platform,
        executable,
    )
}

/// Whether a path is that of the main executable of a PICO-8 app bundle,
/// given the bundle's `Info.plist`. Helper executables inside the bundle are
/// not.
pub open spec fn is_pico8_bundle_executable(
    platform: Platform,
    path: Seq<u8>,
    info_plist: InfoPlist,
) -> bool {
    &&& bundle_index(names(platform, path)) is Some
    &&& in_pico8_bundle(encode_utf8(info_plist.c_f_bundle_identifier@))
    &&& is_bundle_main_executable(
        platform,
        path,
        bundle_index(names(platform, path)).unwrap(),
        encode_utf8(info_plist.c_f_bundle_executable@),
    )
}

/// Whether the file name of a path is that of PICO-8 itself.
pub open spec fn is_named_pico8(platform: Platform, path: Seq<u8>) -> bool {
    file_name_of(platform, path) == Some(pico8_executable_name(platform))
}

/// Whether an executable is PICO-8 or a cartridge exported from it, or
/// nothing where that cannot be told: where the file name is not that of
/// PICO-8 and the path lies in no app bundle, or in one whose `Info.plist`
/// could not be read.
pub open spec fn pico8_verdict(
    platform: Platform,
    path: Seq<u8>,
    info_plist: Option<&InfoPlist>,
) -> Option<bool> {
    if is_named_pico8(platform, path) {
        Some(true)
    } else if bundle_index(names(platform, path)) is None || info_plist is None {
        None
    } else {
        Some(is_pico8_bundle_executable(platform, path, *info_plist.unwrap()))
    }
}

/// The flavor of the runtime that an executable is, if it is one: PICO-8
/// where `is_pico8_exe` says so, else WASM-4 where `is_wasm4_exe` says so.
/// What cannot be told counts as not a runtime.
pub open spec fn flavor_of(
    platform: Platform,
    path: Seq<u8>,
    info_plist: Option<&InfoPlist>,
) -> Option<RuntimeFlavor> {
    if pico8_verdict(platform, path, info_plist) == Some(true) {
        Some(RuntimeFlavor::Pico8)
    } else if file_name_of(platform, path) is Some && is_wasm4_name(
        file_name_of(platform, path).unwrap(),
    ) {
        Some(RuntimeFlavor::Wasm4)
    } else {
        None
    }
}

fn has_extension_app(name: &[u8]) -> (found: bool)
    ensures
        found == has_app_extension(name@),
{
    proof {
        reveal_strlit(".app");
    }
    name.len() > 4 && has_suffix(name, literal(".app"))
}

fn find_bundle(platform: Platform, path: &[u8], ranges: &Vec<(usize, usize)>) -> (found: Option<
    usize,
>)
    requires
        are_parts(ranges@, platform, path@),
    ensures
        match found {
            Some(k) => bundle_index(names(platform, path@)) == Some(k as int) && k < ranges@.len(),
            None => bundle_index(names(platform, path@)) is None,
        },
{
    let ghost all = names(platform, path@);
    let mut k: usize = ranges.len();
    proof {
        assert(all.take(k as int) =~= all);
    }
    while k > 0
        invariant
            k <= ranges@.len(),
            all == names(platform, path@),
            all.len() == ranges@.len(),
            are_parts(ranges@, platform, path@),
            bundle_index(all) == bundle_index(all.take(k as int)),
        decreases k,
    {
        let name = part_of(path, ranges[k - 1]);
        proof {
            assert(all.take(k as int).drop_last() =~= all.take(k - 1));
        }
        if has_extension_app(name) {
            return Some(k - 1);
        }
        k -= 1;
    }
    None
}

/// The path of the app bundle that a file lies in, if it lies in one.
pub fn find_app_bundle_path<'a>(platform: Platform, path: &'a [u8]) -> (found: Result<
    &'a [u8],
    Error,
>)
    ensures
        match found {
            Ok(bundle) => app_bundle_of(platform, path@) == Some(bundle@),
            Err(Error::AppBundle { path: outside }) => app_bundle_of(platform, path@) is None
                && outside@ == path@,
            Err(_) => false,
        },
{
    let ranges = split_path(platform, path);
    match find_bundle(platform, path, &ranges) {
        Some(k) => Ok(vstd::slice::slice_subrange(path, 0, ranges[k].1)),
        None => Err(Error::AppBundle { path: vstd::slice::slice_to_vec(path) }),
    }
}

fn is_main_executable(
    platform: Platform,
    path: &[u8],
    ranges: &Vec<(usize, usize)>,
    k: usize,
    executable: &[u8],
) -> (found: bool)
    requires
        k < ranges@.len(),
        are_parts(ranges@, platform, path@),
    ensures
        found == is_bundle_main_executable(platform, path@, k as int, executable@),
{
    let inner = split_path(platform, executable);
    let ghost behind = names(platform, path@).skip(k + 1);
    let ghost wanted = seq![ascii("Contents"@), ascii("MacOS"@)] + names(platform, executable@);
    proof {
        reveal_strlit("Contents");
        reveal_strlit("MacOS");
    }
    let tail = ranges.len() - (k + 1);
    if tail < 2 || tail - 2 != inner.len() {
        assert(behind.len() != wanted.len());
        return false;
    }
    if !same_bytes(part_of(path, ranges[k + 1]), literal("Contents")) {
        assert(behind[0] != wanted[0]);
        return false;
    }
    if !same_bytes(part_of(path, ranges[k + 2]), literal("MacOS")) {
        assert(behind[1] != wanted[1]);
        return false;
    }
    let mut i: usize = 0;
    while i < inner.len()
        invariant
            i <= inner@.len(),
            k + 3 + inner@.len() == ranges@.len(),
            ranges@.len() <= usize::MAX,
            behind == names(platform, path@).skip(k + 1),
            wanted == seq![ascii("Contents"@), ascii("MacOS"@)] + names(platform, executable@),
            are_parts(ranges@, platform, path@),
            are_parts(inner@, platform, executable@),
            forall|j: int| 2 <= j < 2 + i ==> behind[j] == wanted[j],
        decreases inner@.len() - i,
    {
        if !same_bytes(part_of(path, ranges[k + 3 + i]), part_of(executable, inner[i])) {
            assert(behind[2 + i] != wanted[2 + i]);
            return false;
        }
        i += 1;
    }
    assert(behind =~= wanted);
    true
}

/// Whether a bundle identifier is that of PICO-8 or of a cartridge exported
/// from it.
pub fn is_pico8_bundle_identifier(identifier: &[u8]) -> (found: bool)
    ensures
        found == in_pico8_bundle(identifier@),
{
    proof {
        reveal_strlit("com.lexaloffle.pico8");
        reveal_strlit("com.pico8_author.");
    }
    same_bytes(identifier, literal("com.lexaloffle.pico8")) || has_prefix(
        identifier,
        literal("com.pico8_author."),
    )
}

/// Whether a path is that of the main executable of a PICO-8 app bundle.
/// `info_plist` is what was read of the `Info.plist` of the bundle that
/// `find_app_bundle_path` gives for the path, or nothing where it could
/// not be read.
///
/// Fails with `AppBundle` where the path lies in no bundle, and with
/// `Plist` where it does and the `Info.plist` could not be read.
pub fn is_main_executable_of_pico8_bundle(
    platform: Platform,
    path: &[u8],
    info_plist: Option<&InfoPlist>,
) -> (found: Result<bool, Error>)
    ensures
        match found {
            Ok(main) => info_plist is Some && bundle_index(names(platform, path@)) is Some && main
                == is_pico8_bundle_executable(platform, path@, *info_plist.unwrap()),
            Err(Error::AppBundle { path: outside }) => bundle_index(names(platform, path@)) is None
                && outside@ == path@,
            Err(Error::Plist) => bundle_index(names(platform, path@)) is Some && info_plist is None,
            Err(_) => false,
        },
{
    let ranges = split_path(platform, path);
    let k = match find_bundle(platform, path, &ranges) {
        Some(k) => k,
        None => {
            return Err(Error::AppBundle { path: vstd::slice::slice_to_vec(path) });
        },
    };
    let info = match info_plist {
        Some(info) => info,
        None => {
            return Err(Error::Plist);
        },
    };
    let in_bundle = is_pico8_bundle_identifier(info.c_f_bundle_identifier.as_str().as_bytes());
    let is_main = is_main_executable(
        platform,
        path,
        &ranges,
        k,
        info.c_f_bundle_executable.as_str().as_bytes(),
    );
    Ok(in_bundle && is_main)
}

/// Whether an executable is PICO-8 or a cartridge exported from it: whether
/// its file name is that of PICO-8, or else it is the main executable of a
/// PICO-8 app bundle. `info_plist` is as for
/// `is_main_executable_of_pico8_bundle`, and is not looked at where the
/// file name decides.
pub fn is_pico8_exe(platform: Platform, path: &[u8], info_plist: Option<&InfoPlist>) -> (found:
    Result<bool, Error>)
    ensures
        match found {
            Ok(pico8) => pico8_verdict(platform, path@, info_plist) == Some(pico8),
            Err(Error::AppBundle { path: outside }) => !is_named_pico8(platform, path@)
                && bundle_index(names(platform, path@)) is None && outside@ == path@,
            Err(Error::Plist) => !is_named_pico8(platform, path@) && bundle_index(
                names(platform, path@),
            ) is Some && info_plist is None,
            Err(_) => false,
        },
{
    proof {
        reveal_strlit("pico8");
        reveal_strlit("pico8.exe");
    }
    let wanted = match platform {
        Platform::Windows => literal("pico8.exe"),
        _ => literal("pico8"),
    };
    let named = match file_name(platform, path) {
        Some(name) => same_bytes(name, wanted),
        None => false,
    };
    if named {
        Ok(true)
    } else {
        is_main_executable_of_pico8_bundle(platform, path, info_plist)
    }
}

/// Whether an executable is a WASM-4 runtime: whether its file name is one
/// of the three that the WASM-4 launcher unpacks. Upper and lower case are
/// told apart. Never fails.
pub fn is_wasm4_exe(platform: Platform, path: &[u8]) -> (found: Result<bool, Error>)
    ensures
        found is Ok,
        found.unwrap() == (file_name_of(platform, path@) is Some && is_wasm4_name(
            file_name_of(platform, path@).unwrap(),
        )),
{
    proof {
        reveal_strlit("wasm4-mac");
        reveal_strlit("wasm4-linux");
        reveal_strlit("wasm4-windows.exe");
    }
    match file_name(platform, path) {
        Some(name) => Ok(
            same_bytes(name, literal("wasm4-mac")) || same_bytes(name, literal("wasm4-linux"))
                || same_bytes(name, literal("wasm4-windows.exe")),
        ),
        None => Ok(false),
    }
}

/// The flavor of the runtime that an executable is, if it is one. Where
/// `is_pico8_exe` fails, the executable is not taken for PICO-8.
pub fn classify_executable(
    platform: Platform,
    path: &[u8],
    info_plist: Option<&InfoPlist>,
) -> (flavor: Option<RuntimeFlavor>)
    ensures
        flavor == flavor_of(platform, path@, info_plist),
{
    let pico8 = match is_pico8_exe(platform, path, info_plist) {
        Ok(found) => found,
        Err(_) => false,
    };
    if pico8 {
        return Some(RuntimeFlavor::Pico8);
    }
    let wasm4 = match is_wasm4_exe(platform, path) {
        Ok(found) => found,
        Err(_) => false,
    };
    if wasm4 {
        Some(RuntimeFlavor::Wasm4)
    } else {
        None
    }
}

} // verus!
