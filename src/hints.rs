//! The known browser families: where each is installed and keeps its
//! profiles on each platform, and how its private mode and profiles are
//! opened.
use vstd::prelude::*;
use crate::types::{Platform, ProfileFamily, ProfileHint, ProfileHintView, hints_view};

verus! {

/// How many browser families are known.
pub open spec fn family_count() -> int {
    4
}

/// Where the family with the given index (Chrome, Chrome Beta, Edge,
/// Firefox) is installed, and where its profile directories are, on the
/// platform. On Linux the first is the name of its desktop entry; on macOS
/// that of its application bundle.
pub open spec fn hint_locations(family: int, platform: Platform) -> (Seq<char>, Seq<char>) {
    match platform {
        Platform::Windows => if family == 0 {
            (
                "%programfiles%\\Google\\Chrome\\Application\\chrome.exe"@,
                "%localappdata%\\Google\\Chrome\\User Data"@,
            )
        } else if family == 1 {
            (
                "%programfiles%\\Google\\Chrome Beta\\Application\\chrome.exe"@,
                "%localappdata%\\Google\\Chrome Beta\\User Data"@,
            )
        } else if family == 2 {
            (
                "%programfiles%\\Microsoft\\Edge\\Application\\msedge.exe"@,
                "%localappdata%\\Microsoft\\Edge\\User Data"@,
            )
        } else {
            ("%programfiles%\\Mozilla Firefox\\firefox.exe"@, "%appdata%\\Mozilla\\Firefox\\Profiles"@)
        },
        Platform::Linux => if family == 0 {
            ("google-chrome.desktop"@, "~/.config/google-chrome"@)
        } else if family == 1 {
            ("google-chrome-beta.desktop"@, "~/.config/google-chrome-beta"@)
        } else if family == 2 {
            ("microsoft-edge.desktop"@, "~/.config/microsoft-edge"@)
        } else {
            ("firefox.desktop"@, "~/.mozilla/firefox"@)
        },
        Platform::MacOs => if family == 0 {
            ("Google Chrome.app"@, "~/Library/Application Support/Google/Chrome"@)
        } else if family == 1 {
            ("Google Chrome Beta.app"@, "~/Library/Application Support/Google/Chrome Beta"@)
        } else if family == 2 {
            ("Microsoft Edge.app"@, "~/Library/Application Support/Microsoft Edge"@)
        } else {
            ("Firefox.app"@, "~/Library/Application Support/Firefox/Profiles"@)
        },
    }
}

/// The hint of the family with the given index on the platform.
pub open spec fn hint_spec(family: int, platform: Platform) -> ProfileHintView {
    let (exe_path, profiles_path) = hint_locations(family, platform);
    if family == 0 || family == 1 {
        ProfileHintView {
            exe_path,
            profiles_path,
            private_arg: "--incognito"@,
            private_name: "Incognito mode"@,
            profile_arg: "--profile-directory="@,
            family: ProfileFamily::Chromium,
            icon_path: "Google Profile.ico"@,
        }
    } else if family == 2 {
        ProfileHintView {
            exe_path,
            profiles_path,
            private_arg: "-inprivate"@,
            private_name: "InPrivate mode"@,
            profile_arg: "--profile-directory="@,
            family: ProfileFamily::Chromium,
            icon_path: "Edge Profile.ico"@,
        }
    } else {
        ProfileHintView {
            exe_path,
            profiles_path,
            private_arg: "-private-window"@,
            private_name: "Private Browsing"@,
            profile_arg: "-P"@,
            family: ProfileFamily::Firefox,
            icon_path: ""@,
        }
    }
}

fn locations(family: usize, platform: Platform) -> (r: (&'static str, &'static str))
    ensures
        (r.0@, r.1@) == hint_locations(family as int, platform),
{
    match platform {
        Platform::Windows => if family == 0 {
            (
                "%programfiles%\\Google\\Chrome\\Application\\chrome.exe",
                "%localappdata%\\Google\\Chrome\\User Data",
            )
        } else if family == 1 {
            (
                "%programfiles%\\Google\\Chrome Beta\\Application\\chrome.exe",
                "%localappdata%\\Google\\Chrome Beta\\User Data",
            )
        } else if family == 2 {
            (
                "%programfiles%\\Microsoft\\Edge\\Application\\msedge.exe",
                "%localappdata%\\Microsoft\\Edge\\User Data",
            )
        } else {
            ("%programfiles%\\Mozilla Firefox\\firefox.exe", "%appdata%\\Mozilla\\Firefox\\Profiles")
        },
        Platform::Linux => if family == 0 {
            ("google-chrome.desktop", "~/.config/google-chrome")
        } else if family == 1 {
            ("google-chrome-beta.desktop", "~/.config/google-chrome-beta")
        } else if family == 2 {
            ("microsoft-edge.desktop", "~/.config/microsoft-edge")
        } else {
            ("firefox.desktop", "~/.mozilla/firefox")
        },
        Platform::MacOs => if family == 0 {
            ("Google Chrome.app", "~/Library/Application Support/Google/Chrome")
        } else if family == 1 {
            ("Google Chrome Beta.app", "~/Library/Application Support/Google/Chrome Beta")
        } else if family == 2 {
            ("Microsoft Edge.app", "~/Library/Application Support/Microsoft Edge")
        } else {
            ("Firefox.app", "~/Library/Application Support/Firefox/Profiles")
        },
    }
}

fn hint(family: usize, platform: Platform) -> (r: ProfileHint)
    ensures
        r@ == hint_spec(family as int, platform),
{
    let (exe_path, profiles_path) = locations(family, platform);
    if family == 0 || family == 1 {
        ProfileHint {
            exe_path: String::from_str(exe_path),
            profiles_path: String::from_str(profiles_path),
            private_arg: String::from_str("--incognito"),
            private_name: String::from_str("Incognito mode"),
            profile_arg: String::from_str("--profile-directory="),
            family: ProfileFamily::Chromium,
            icon_path: String::from_str("Google Profile.ico"),
        }
    } else if family == 2 {
        ProfileHint {
            exe_path: String::from_str(exe_path),
            profiles_path: String::from_str(profiles_path),
            private_arg: String::from_str("-inprivate"),
            private_name: String::from_str("InPrivate mode"),
            profile_arg: String::from_str("--profile-directory="),
            family: ProfileFamily::Chromium,
            icon_path: String::from_str("Edge Profile.ico"),
        }
    } else {
        ProfileHint {
            exe_path: String::from_str(exe_path),
            profiles_path: String::from_str(profiles_path),
            private_arg: String::from_str("-private-window"),
            private_name: String::from_str("Private Browsing"),
            profile_arg: String::from_str("-P"),
            family: ProfileFamily::Firefox,
            icon_path: String::from_str(""),
        }
    }
}

/// The hints of the known families on the platform: Chrome, Chrome Beta,
/// Edge and Firefox, in that order.
pub fn profile_hints(platform: Platform) -> (r: Vec<ProfileHint>)
    ensures
        r@.len() == family_count(),
        forall|i: int| 0 <= i < family_count() ==> #[trigger] hints_view(r@)[i] == hint_spec(
            i,
            platform,
        ),
{
    let mut r: Vec<ProfileHint> = Vec::new();
    let mut i: usize = 0;
    while i < 4
        invariant
            i <= 4,
            r@.len() == i,
            forall|j: int| 0 <= j < i ==> #[trigger] hints_view(r@)[j] == hint_spec(j, platform),
        decreases 4 - i,
    {
        let h = hint(i, platform);
        let ghost before = r@;
        r.push(h);
        assert forall|j: int| 0 <= j < i + 1 implies #[trigger] hints_view(r@)[j] == hint_spec(
            j,
            platform,
        ) by {
            if j < i {
                assert(hints_view(before)[j] == hint_spec(j, platform));
                assert(r@[j] == before[j]);
            }
        }
        i = i + 1;
    }
    r
}

} // verus!
