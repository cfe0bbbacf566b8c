use bro::browser::{
    build_profiles, detect_path, launch_browser_command, launch_command_for, open_invocation,
    select_profile_hint,
};
use bro::hints::profile_hints;
use bro::system::{is_64, set_default_browser};
use bro::types::{
    Browser, LaunchError, Platform, Profile, ProfileDirEntry, ProfileFamily, ProfileHint,
};

fn s(x: &str) -> String {
    x.to_string()
}

fn chrome() -> Browser {
    Browser {
        id: s("chrome"),
        name: s("Google Chrome"),
        command: s("/bin/chrome"),
        profiles: vec![Profile {
            id: s("Default"),
            name: s("Default"),
            args: vec![s("--profile-directory=Default")],
            icon_path: String::new(),
        }],
    }
}

fn plain_chrome() -> Browser {
    Browser {
        id: s("chrome"),
        name: s("Google Chrome"),
        command: s("/bin/chrome"),
        profiles: vec![],
    }
}

#[test]
fn browser_without_profile() {
    let browsers = vec![plain_chrome()];
    assert_eq!(
        launch_browser_command(&browsers, &s("chrome"), "https://a/"),
        Ok((s("/bin/chrome"), vec![s("https://a/")]))
    );
}

#[test]
fn browser_with_profile() {
    let browsers = vec![chrome()];
    let uri = "https://example.org/x";
    assert_eq!(
        launch_browser_command(&browsers, &s("chrome:Default"), uri),
        Ok((
            s("/bin/chrome"),
            vec![s("--profile-directory=Default"), s(uri)]
        ))
    );
}

#[test]
fn launch_errors() {
    let browsers = vec![chrome()];
    let uri = "https://a/";
    assert_eq!(
        launch_browser_command(&browsers, &s("chrome:Missing"), uri),
        Err(LaunchError::UnknownProfile(s("Missing"), s("chrome")))
    );
    assert_eq!(
        launch_browser_command(&browsers, &s("ghost"), uri),
        Err(LaunchError::UnknownBrowser(s("ghost")))
    );
    assert_eq!(
        launch_browser_command(&browsers, &s("a:b:c"), uri),
        Err(LaunchError::InvalidSpec(s("a:b:c")))
    );
}

#[test]
fn first_browser_with_id_is_used() {
    let mut second = plain_chrome();
    second.command = s("/opt/chrome");
    let browsers = vec![plain_chrome(), second];
    let (exe, _) = launch_browser_command(&browsers, &s("chrome"), "u").unwrap();
    assert_eq!(exe, "/bin/chrome");
}

#[test]
fn macos_launch_goes_through_open() {
    let browsers = vec![chrome()];
    assert_eq!(
        launch_command_for(Platform::MacOs, &browsers, &s("chrome:Default"), "u"),
        Ok((
            s("open"),
            vec![
                s("-n"),
                s("-a"),
                s("/bin/chrome"),
                s("--args"),
                s("--profile-directory=Default"),
                s("u")
            ]
        ))
    );
    assert_eq!(
        launch_command_for(Platform::Linux, &browsers, &s("chrome"), "u"),
        Ok((s("/bin/chrome"), vec![s("u")]))
    );
    assert_eq!(
        launch_command_for(Platform::MacOs, &browsers, &s("x"), "u"),
        Err(LaunchError::UnknownBrowser(s("x")))
    );
    assert_eq!(
        open_invocation(s("App"), vec![]),
        (s("open"), vec![s("-n"), s("-a"), s("App"), s("--args")])
    );
}

#[test]
fn profile_arguments_by_family() {
    let hints = profile_hints(Platform::Linux);
    assert_eq!(
        hints[0].construct_profile_arguments("Profile 1"),
        vec![s("--profile-directory=Profile 1")]
    );
    assert_eq!(
        hints[3].construct_profile_arguments("abc.default"),
        vec![s("-P"), s("abc.default")]
    );
    assert_eq!(hints[0].family.marker_file(), "History");
    assert_eq!(ProfileFamily::Firefox.marker_file(), "cookies.sqlite");
}

#[test]
fn hint_table_per_platform() {
    let linux = profile_hints(Platform::Linux);
    assert_eq!(linux.len(), 4);
    assert_eq!(linux[0].exe_path, "google-chrome.desktop");
    assert_eq!(linux[2].private_arg, "-inprivate");
    assert_eq!(linux[3].family, ProfileFamily::Firefox);
    assert_eq!(linux[3].icon_path, "");
    let mac = profile_hints(Platform::MacOs);
    assert_eq!(mac[3].exe_path, "Firefox.app");
    let win = profile_hints(Platform::Windows);
    assert_eq!(win[1].profiles_path, "%localappdata%\\Google\\Chrome Beta\\User Data");
}

fn linux_chrome(command: &str) -> Browser {
    Browser {
        id: s("google-chrome.desktop"),
        name: s("Google Chrome"),
        command: s(command),
        profiles: vec![],
    }
}

#[test]
fn detect_path_on_linux_strips_placeholders() {
    let hints = profile_hints(Platform::Linux);
    let b = linux_chrome("/usr/bin/google-chrome-stable %U");
    assert_eq!(detect_path(&b, &hints[0], Platform::Linux), "/usr/bin/google-chrome-stable");
    let b = linux_chrome("/usr/bin/chrome %u --x %u ");
    assert_eq!(detect_path(&b, &hints[0], Platform::Linux), "/usr/bin/chrome  --x");
    assert_eq!(detect_path(&b, &hints[1], Platform::Linux), "");
    assert_eq!(
        detect_path(&b, &hints[0], Platform::MacOs),
        "/usr/bin/chrome %u --x %u "
    );
}

#[test]
fn select_profile_hint_picks_family() {
    let hints = profile_hints(Platform::Linux);
    let b = linux_chrome("/usr/bin/chrome %U");
    assert_eq!(select_profile_hint(&b, &hints, Platform::Linux), Some(0));
    let ff = Browser {
        id: s("firefox.desktop"),
        name: s("Firefox"),
        command: s("firefox %u"),
        profiles: vec![],
    };
    assert_eq!(select_profile_hint(&ff, &hints, Platform::Linux), Some(3));
    assert_eq!(select_profile_hint(&plain_chrome(), &hints, Platform::Linux), None);
    let empty_cmd = linux_chrome(" %U");
    assert_eq!(select_profile_hint(&empty_cmd, &hints, Platform::Linux), None);
}

fn entry(name: &str, is_dir: bool, has_marker: bool, icon: &str) -> ProfileDirEntry {
    ProfileDirEntry {
        name: s(name),
        is_dir,
        has_marker,
        icon_path: s(icon),
    }
}

#[test]
fn build_profiles_lists_private_mode_first() {
    let hints = profile_hints(Platform::Linux);
    let entries = vec![
        entry("Default", true, true, "/p/Default/Google Profile.ico"),
        entry("Crashpad", true, false, ""),
        entry("Local State", false, true, ""),
        entry("Profile 1", true, true, ""),
    ];
    let profiles = build_profiles(&hints[0], &entries);
    assert_eq!(profiles.len(), 3);
    assert_eq!(profiles[0].id, "__PRIVATE__");
    assert_eq!(profiles[0].name, "Incognito mode");
    assert_eq!(profiles[0].args, vec![s("--incognito")]);
    assert_eq!(profiles[1].id, "Default");
    assert_eq!(profiles[1].args, vec![s("--profile-directory=Default")]);
    assert_eq!(profiles[1].icon_path, "/p/Default/Google Profile.ico");
    assert_eq!(profiles[2].name, "Profile 1");
}

#[test]
fn build_profiles_ignores_icons_for_families_without_one() {
    let hints = profile_hints(Platform::Linux);
    let entries = vec![entry("x.default", true, true, "/some/icon")];
    let profiles = build_profiles(&hints[3], &entries);
    assert_eq!(profiles[0].args, vec![s("-private-window")]);
    assert_eq!(profiles[1].args, vec![s("-P"), s("x.default")]);
    assert_eq!(profiles[1].icon_path, "");
    let only_private = build_profiles(&hints[3], &vec![]);
    assert_eq!(only_private.len(), 1);
}

#[test]
fn custom_hint_arguments() {
    let hint = ProfileHint {
        exe_path: s("x"),
        profiles_path: s("p"),
        private_arg: s("--private"),
        private_name: s("Private"),
        profile_arg: s("--profile="),
        family: ProfileFamily::Chromium,
        icon_path: s(""),
    };
    assert_eq!(hint.construct_profile_arguments("a"), vec![s("--profile=a")]);
}

#[test]
fn default_browser_settings_command() {
    assert_eq!(
        set_default_browser(Platform::Windows),
        Some((
            s("control"),
            vec![
                s("/name"),
                s("Microsoft.DefaultPrograms"),
                s("/page"),
                s("pageDefaultProgram")
            ]
        ))
    );
    assert_eq!(set_default_browser(Platform::Linux), None);
}

#[test]
fn pointer_width() {
    assert_eq!(is_64(), std::mem::size_of::<usize>() == 8);
}

#[test]
fn first_profile_with_id_is_used() {
    let mut b = chrome();
    b.profiles.push(Profile {
        id: s("Default"),
        name: s("Other"),
        args: vec![s("--other")],
        icon_path: String::new(),
    });
    let browsers = vec![b];
    assert_eq!(
        launch_browser_command(&browsers, &s("chrome:Default"), "u"),
        Ok((s("/bin/chrome"), vec![s("--profile-directory=Default"), s("u")]))
    );
}

#[test]
fn empty_profile_part_is_unknown_profile() {
    let browsers = vec![chrome()];
    assert_eq!(
        launch_browser_command(&browsers, &s("chrome:"), "u"),
        Err(LaunchError::UnknownProfile(s(""), s("chrome")))
    );
    assert_eq!(
        launch_browser_command(&Vec::new(), &s(""), "u"),
        Err(LaunchError::UnknownBrowser(s("")))
    );
}
