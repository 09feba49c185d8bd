use pinput::detector::{
    classify_executable, find_app_bundle_path, is_main_executable_of_pico8_bundle, is_pico8_bundle_identifier,
    is_pico8_exe, is_wasm4_exe, InfoPlist,
};
use pinput::paths::{file_name, is_path_separator, split_path, Platform};
use pinput::runtime_connection::{Error, RuntimeFlavor};

fn plist(executable: &str, identifier: &str) -> InfoPlist {
    InfoPlist {
        c_f_bundle_executable: executable.to_string(),
        c_f_bundle_identifier: identifier.to_string(),
    }
}

#[test]
fn pico8_by_file_name() {
    assert_eq!(is_pico8_exe(Platform::Linux, b"/home/me/pico-8/pico8", None), Ok(true));
    assert_eq!(is_pico8_exe(Platform::MacOs, b"/usr/local/bin/pico8", None), Ok(true));
    assert_eq!(is_pico8_exe(Platform::Linux, b"pico8", None), Ok(true));
    assert_eq!(
        is_pico8_exe(Platform::Windows, b"C:\\Program Files (x86)\\PICO-8\\pico8.exe", None),
        Ok(true)
    );
    assert_eq!(
        is_pico8_exe(Platform::Windows, b"C:/Program Files (x86)/PICO-8/pico8.exe", None),
        Ok(true)
    );
}

#[test]
fn pico8_file_name_goes_by_platform() {
    assert_eq!(
        is_pico8_exe(Platform::Linux, b"/home/me/pico-8/pico8.exe", None),
        Err(Error::AppBundle { path: b"/home/me/pico-8/pico8.exe".to_vec() })
    );
    assert_eq!(
        is_pico8_exe(Platform::Windows, b"C:\\PICO-8\\pico8", None),
        Err(Error::AppBundle { path: b"C:\\PICO-8\\pico8".to_vec() })
    );
    assert_eq!(
        classify_executable(Platform::Linux, b"/tmp/dir\\pico8", None),
        None
    );
}

#[test]
fn pico8_helper_is_not_pico8() {
    let path = b"/home/me/pico-8/pico8-helper";
    assert_eq!(
        is_pico8_exe(Platform::Linux, path, None),
        Err(Error::AppBundle { path: path.to_vec() })
    );
    assert_eq!(classify_executable(Platform::Linux, path, None), None);
    assert_eq!(classify_executable(Platform::Linux, b"/home/me/my-pico8", None), None);
    assert_eq!(classify_executable(Platform::Linux, b"/home/me/pico8/run", None), None);
    assert_eq!(classify_executable(Platform::Linux, b"/home/me/PICO8", None), None);
}

#[test]
fn pico8_file_name_is_the_last_component() {
    assert_eq!(is_pico8_exe(Platform::Linux, b"/opt/pico8/", None), Ok(true));
    assert_eq!(is_pico8_exe(Platform::Linux, b"/opt//pico8/.", None), Ok(true));
    assert_eq!(classify_executable(Platform::Linux, b"/opt/pico8/..", None), None);
    assert_eq!(classify_executable(Platform::Linux, b"", None), None);
    assert_eq!(classify_executable(Platform::Linux, b"/", None), None);
}

#[test]
fn pico8_by_bundle() {
    let path = b"/Applications/Foo.app/Contents/MacOS/Foo";
    let info = plist("Foo", "com.lexaloffle.pico8");
    assert_eq!(is_pico8_exe(Platform::MacOs, path, Some(&info)), Ok(true));
    assert_eq!(
        is_main_executable_of_pico8_bundle(Platform::MacOs, path, Some(&info)),
        Ok(true)
    );
    assert_eq!(
        classify_executable(Platform::MacOs, path, Some(&info)),
        Some(RuntimeFlavor::Pico8)
    );
}

#[test]
fn pico8_bundle_with_another_executable_is_not_pico8() {
    let path = b"/Applications/Foo.app/Contents/MacOS/Foo";
    let info = plist("Bar", "com.lexaloffle.pico8");
    assert_eq!(is_pico8_exe(Platform::MacOs, path, Some(&info)), Ok(false));
    assert_eq!(classify_executable(Platform::MacOs, path, Some(&info)), None);
    let helper = b"/Applications/Foo.app/Contents/MacOS/helpers/Foo";
    let info = plist("Foo", "com.lexaloffle.pico8");
    assert_eq!(is_pico8_exe(Platform::MacOs, helper, Some(&info)), Ok(false));
    let inner = b"/Applications/Foo.app/Contents/Frameworks/Foo";
    assert_eq!(is_pico8_exe(Platform::MacOs, inner, Some(&info)), Ok(false));
    let short = b"/Applications/Foo.app/Contents/MacOS";
    assert_eq!(is_pico8_exe(Platform::MacOs, short, Some(&info)), Ok(false));
}

#[test]
fn exported_cartridge_is_pico8() {
    let path = b"/Users/me/Games/Celeste.app/Contents/MacOS/celeste";
    assert_eq!(
        is_pico8_exe(Platform::MacOs, path, Some(&plist("celeste", "com.pico8_author.celeste"))),
        Ok(true)
    );
    assert_eq!(
        is_pico8_exe(Platform::MacOs, path, Some(&plist("celeste", "com.pico8_author."))),
        Ok(true)
    );
    assert_eq!(
        is_pico8_exe(Platform::MacOs, path, Some(&plist("celeste", "com.pico8_author"))),
        Ok(false)
    );
    assert_eq!(
        is_pico8_exe(Platform::MacOs, path, Some(&plist("celeste", "org.example.celeste"))),
        Ok(false)
    );
    assert_eq!(
        is_pico8_exe(Platform::MacOs, path, Some(&plist("celeste", "com.lexaloffle.pico8.x"))),
        Ok(false)
    );
}

#[test]
fn bundle_identifier_of_pico8() {
    assert!(is_pico8_bundle_identifier(b"com.lexaloffle.pico8"));
    assert!(is_pico8_bundle_identifier(b"com.pico8_author.anything"));
    assert!(!is_pico8_bundle_identifier(b"com.lexaloffle.pico"));
    assert!(!is_pico8_bundle_identifier(b"x.com.pico8_author.anything"));
    assert!(!is_pico8_bundle_identifier(b""));
}

#[test]
fn bundle_executable_may_lie_deeper() {
    let path = b"/Applications/Foo.app/Contents/MacOS/bin/Foo";
    assert_eq!(
        is_pico8_exe(Platform::MacOs, path, Some(&plist("bin/Foo", "com.lexaloffle.pico8"))),
        Ok(true)
    );
    assert_eq!(
        is_pico8_exe(Platform::MacOs, path, Some(&plist("./bin//Foo", "com.lexaloffle.pico8"))),
        Ok(true)
    );
    let doubled = b"/Applications/Foo.app//Contents/./MacOS/Foo";
    assert_eq!(
        is_pico8_exe(Platform::MacOs, doubled, Some(&plist("Foo", "com.lexaloffle.pico8"))),
        Ok(true)
    );
}

#[test]
fn unreadable_plist_is_an_error() {
    let path = b"/Applications/Foo.app/Contents/MacOS/Foo";
    assert_eq!(is_pico8_exe(Platform::MacOs, path, None), Err(Error::Plist));
    assert_eq!(
        is_main_executable_of_pico8_bundle(Platform::MacOs, path, None),
        Err(Error::Plist)
    );
    assert_eq!(classify_executable(Platform::MacOs, path, None), None);
}

#[test]
fn file_outside_a_bundle_is_an_error() {
    let path = b"/usr/bin/true";
    let info = plist("true", "com.lexaloffle.pico8");
    assert_eq!(
        is_main_executable_of_pico8_bundle(Platform::MacOs, path, Some(&info)),
        Err(Error::AppBundle { path: path.to_vec() })
    );
    assert_eq!(
        find_app_bundle_path(Platform::MacOs, path),
        Err(Error::AppBundle { path: path.to_vec() })
    );
}

#[test]
fn bundle_is_the_nearest_directory_with_the_extension() {
    assert_eq!(
        find_app_bundle_path(Platform::MacOs, b"/Applications/Foo.app/Contents/MacOS/Foo"),
        Ok(&b"/Applications/Foo.app"[..])
    );
    assert_eq!(
        find_app_bundle_path(Platform::MacOs, b"/A.app/Contents/B.app/Contents/MacOS/x"),
        Ok(&b"/A.app/Contents/B.app"[..])
    );
    assert_eq!(
        find_app_bundle_path(Platform::MacOs, b"Foo.app//Contents"),
        Ok(&b"Foo.app"[..])
    );
    assert_eq!(
        find_app_bundle_path(Platform::MacOs, b"/x/Foo.app"),
        Ok(&b"/x/Foo.app"[..])
    );
    assert_eq!(
        find_app_bundle_path(Platform::MacOs, b"/x/..app/y"),
        Ok(&b"/x/..app"[..])
    );
}

#[test]
fn bundle_needs_a_name_before_the_extension() {
    for path in [&b"/x/.app/y"[..], b"/x/app/y", b"/x/Foo.apple/y", b"/x/Foo.APP/y", b"/x/Foo.app.bak/y"] {
        assert_eq!(
            find_app_bundle_path(Platform::MacOs, path),
            Err(Error::AppBundle { path: path.to_vec() })
        );
    }
}

#[test]
fn wasm4_by_file_name() {
    assert_eq!(is_wasm4_exe(Platform::MacOs, b"/tmp/w4/wasm4-mac"), Ok(true));
    assert_eq!(is_wasm4_exe(Platform::Linux, b"/tmp/w4/wasm4-linux"), Ok(true));
    assert_eq!(
        is_wasm4_exe(Platform::Windows, b"C:\\Users\\me\\AppData\\Local\\Temp\\wasm4-windows.exe"),
        Ok(true)
    );
    assert_eq!(is_wasm4_exe(Platform::Linux, b"wasm4-windows.exe"), Ok(true));
    assert_eq!(
        classify_executable(Platform::Linux, b"/tmp/w4/wasm4-linux", None),
        Some(RuntimeFlavor::Wasm4)
    );
}

#[test]
fn wasm4_names_are_exactly_three() {
    for path in [
        &b"/usr/local/bin/w4"[..],
        b"/tmp/w4/wasm4",
        b"/tmp/w4/wasm4-linux.exe",
        b"/tmp/w4/wasm4-windows",
        b"/tmp/w4/wasm4-mac.app",
        b"/tmp/w4/xwasm4-mac",
        b"/tmp/wasm4-linux/run",
        b"/tmp/w4/..",
        b"",
    ] {
        assert_eq!(is_wasm4_exe(Platform::Linux, path), Ok(false));
        assert_eq!(classify_executable(Platform::Linux, path, None), None);
    }
}

#[test]
fn wasm4_names_tell_case_apart() {
    assert_eq!(is_wasm4_exe(Platform::Linux, b"/tmp/w4/WASM4-LINUX"), Ok(false));
    assert_eq!(is_wasm4_exe(Platform::MacOs, b"/tmp/w4/Wasm4-mac"), Ok(false));
    assert_eq!(is_wasm4_exe(Platform::Linux, b"/tmp/w4/wasm4-Linux"), Ok(false));
}

#[test]
fn pico8_goes_before_wasm4() {
    let path = b"/Applications/Odd.app/Contents/MacOS/wasm4-mac";
    let info = plist("wasm4-mac", "com.lexaloffle.pico8");
    assert_eq!(
        classify_executable(Platform::MacOs, path, Some(&info)),
        Some(RuntimeFlavor::Pico8)
    );
    assert_eq!(
        classify_executable(Platform::MacOs, path, None),
        Some(RuntimeFlavor::Wasm4)
    );
}

#[test]
fn runtime_flavors_have_names() {
    assert_eq!(RuntimeFlavor::Pico8.name(), "PICO-8");
    assert_eq!(RuntimeFlavor::Wasm4.name(), "WASM-4");
}

#[test]
fn path_is_cut_at_separators() {
    assert_eq!(split_path(Platform::Linux, b"/usr//bin/./env"), vec![(1, 4), (6, 9), (12, 15)]);
    assert_eq!(split_path(Platform::Linux, b"a"), vec![(0, 1)]);
    assert_eq!(split_path(Platform::Linux, b"./.a/../."), vec![(2, 4), (5, 7)]);
    assert_eq!(split_path(Platform::Linux, b""), vec![]);
    assert_eq!(split_path(Platform::Linux, b"///"), vec![]);
    assert_eq!(split_path(Platform::Linux, b"a\\b"), vec![(0, 3)]);
    assert_eq!(split_path(Platform::Windows, b"a\\b/c"), vec![(0, 1), (2, 3), (4, 5)]);
}

#[test]
fn separators_go_by_platform() {
    assert!(is_path_separator(Platform::Linux, b'/'));
    assert!(is_path_separator(Platform::MacOs, b'/'));
    assert!(is_path_separator(Platform::Windows, b'/'));
    assert!(is_path_separator(Platform::Windows, b'\\'));
    assert!(!is_path_separator(Platform::Linux, b'\\'));
    assert!(!is_path_separator(Platform::MacOs, b'\\'));
    assert!(!is_path_separator(Platform::Windows, b':'));
}

#[test]
fn file_name_is_the_last_component() {
    assert_eq!(file_name(Platform::Linux, b"/usr/bin/env"), Some(&b"env"[..]));
    assert_eq!(file_name(Platform::Linux, b"/usr/bin/"), Some(&b"bin"[..]));
    assert_eq!(file_name(Platform::Linux, b"/usr/bin/."), Some(&b"bin"[..]));
    assert_eq!(file_name(Platform::Linux, b"env"), Some(&b"env"[..]));
    assert_eq!(file_name(Platform::Linux, b"..."), Some(&b"..."[..]));
    assert_eq!(file_name(Platform::Linux, b"/usr/.."), None);
    assert_eq!(file_name(Platform::Linux, b".."), None);
    assert_eq!(file_name(Platform::Linux, b"."), None);
    assert_eq!(file_name(Platform::Linux, b"/"), None);
    assert_eq!(file_name(Platform::Linux, b""), None);
}

#[test]
fn file_name_agrees_with_the_standard_library() {
    for path in [
        "/usr/bin/env", "/usr/bin/", "/usr/bin/.", "env", "...", "/usr/..", "..", ".", "/", "",
        "a//b", "./a", "a/./b/.", "/a/b/../c", "x.app/Contents/MacOS/x", "/tmp/foo.txt/",
    ] {
        let expected = std::path::Path::new(path)
            .file_name()
            .map(|name| name.to_str().unwrap().as_bytes());
        assert_eq!(file_name(Platform::Linux, path.as_bytes()), expected);
    }
}
