//! Browser profiles and launch resolution: the arguments that select a
//! profile, the per-family hints, the profile list of a browser, and the
//! command line that opens a URL in a browser or one of its profiles.
use vstd::prelude::*;
use crate::text::{copy_strings, lemma_split_colon_nonempty, replace_all, replaced};
use crate::text::{split_colon, split_on_colon, strings_view, trim_end, trimmed_end};
use crate::types::{Browser, BrowserView, LaunchError, LaunchErrorView, Platform, Profile};
use crate::types::{ProfileFamily, ProfileHint, ProfileHintView, ProfileView, browsers_view};
use crate::types::{ProfileDirEntry, ProfileDirEntryView, entries_view, hints_view, profiles_view};

verus! {

/// The arguments that open a browser of the hint's family in the named
/// profile.
pub open spec fn profile_args(hint: ProfileHintView, name: Seq<char>) -> Seq<Seq<char>> {
    match hint.family {
        ProfileFamily::Chromium => seq![hint.profile_arg + name],
        ProfileFamily::Firefox => seq![hint.profile_arg, name],
    }
}

fn construct_chrome_profile_arguments(hint: &ProfileHint, name: &str) -> (r: Vec<String>)
    ensures
        strings_view(r@) == seq![hint@.profile_arg + name@],
{
    let mut arg = hint.profile_arg.clone();
    arg.append(name);
    let r = vec![arg];
    assert(strings_view(r@) =~= seq![hint@.profile_arg + name@]);
    r
}

fn construct_firefox_profile_arguments(hint: &ProfileHint, name: &str) -> (r: Vec<String>)
    ensures
        strings_view(r@) == seq![hint@.profile_arg, name@],
{
    let r = vec![hint.profile_arg.clone(), String::from_str(name)];
    assert(strings_view(r@) =~= seq![hint@.profile_arg, name@]);
    r
}

impl ProfileHint {
    /// The arguments that open this family's browser in the named profile.
    pub fn construct_profile_arguments(&self, name: &str) -> (r: Vec<String>)
        ensures
            strings_view(r@) == profile_args(self@, name@),
    {
        match self.family {
            ProfileFamily::Chromium => construct_chrome_profile_arguments(self, name),
            ProfileFamily::Firefox => construct_firefox_profile_arguments(self, name),
        }
    }
}

/// The file whose presence marks a directory as a real profile of the family.
pub open spec fn profile_marker(family: ProfileFamily) -> Seq<char> {
    match family {
        ProfileFamily::Chromium => "History"@,
        ProfileFamily::Firefox => "cookies.sqlite"@,
    }
}

impl ProfileFamily {
    /// The file whose presence marks a directory as a real profile.
    pub fn marker_file(&self) -> (r: String)
        ensures
            r@ == profile_marker(*self),
    {
        match self {
            ProfileFamily::Chromium => String::from_str("History"),
            ProfileFamily::Firefox => String::from_str("cookies.sqlite"),
        }
    }
}

/// `o` with `k` added to the index it holds.
pub open spec fn shifted(o: Option<int>, k: int) -> Option<int> {
    match o {
        Some(i) => Some(i + k),
        None => None,
    }
}

/// The index of the first browser with the given id.
pub open spec fn find_browser(browsers: Seq<BrowserView>, id: Seq<char>) -> Option<int>
    decreases browsers.len(),
{
    if browsers.len() == 0 {
        None
    } else if browsers[0].id == id {
        Some(0)
    } else {
        shifted(find_browser(browsers.drop_first(), id), 1)
    }
}

/// The index of the first profile with the given id.
pub open spec fn find_profile(profiles: Seq<ProfileView>, id: Seq<char>) -> Option<int>
    decreases profiles.len(),
{
    if profiles.len() == 0 {
        None
    } else if profiles[0].id == id {
        Some(0)
    } else {
        shifted(find_profile(profiles.drop_first(), id), 1)
    }
}

/// The executable and arguments that open `uri` as `spec` asks
/// (`browser` or `browser:profile`), or why that cannot be done: the
/// profile's arguments come first and the URL last.
pub open spec fn launch_spec(browsers: Seq<BrowserView>, spec: Seq<char>, uri: Seq<char>) -> Result<
    (Seq<char>, Seq<Seq<char>>),
    LaunchErrorView,
> {
    let parts = split_colon(spec);
    if parts.len() > 2 {
        Err(LaunchErrorView::InvalidSpec(spec))
    } else {
        match find_browser(browsers, parts[0]) {
            None => Err(LaunchErrorView::UnknownBrowser(parts[0])),
            Some(i) => if parts.len() == 1 {
                Ok((browsers[i].command, seq![uri]))
            } else {
                match find_profile(browsers[i].profiles, parts[1]) {
                    None => Err(LaunchErrorView::UnknownProfile(parts[1], parts[0])),
                    Some(j) => Ok((browsers[i].command, browsers[i].profiles[j].args.push(uri))),
                }
            },
        }
    }
}

/// The view of a launch command or of the error in its place.
pub open spec fn launch_view(r: Result<(String, Vec<String>), LaunchError>) -> Result<
    (Seq<char>, Seq<Seq<char>>),
    LaunchErrorView,
> {
    match r {
        Ok((exe, args)) => Ok((exe@, strings_view(args@))),
        Err(e) => Err(e@),
    }
}

/// The index of the first browser whose id is `id`.
fn browser_position(browsers: &Vec<Browser>, id: &String) -> (r: Option<usize>)
    ensures
        match r {
            Some(i) => find_browser(browsers_view(browsers@), id@) == Some(i as int) && i
                < browsers.len(),
            None => find_browser(browsers_view(browsers@), id@) is None,
        },
{
    let ghost all = browsers_view(browsers@);
    let mut i: usize = 0;
    assert(all.skip(0) =~= all);
    while i < browsers.len()
        invariant
            all == browsers_view(browsers@),
            i <= browsers.len(),
            find_browser(all, id@) == shifted(find_browser(all.skip(i as int), id@), i as int),
        decreases browsers.len() - i,
    {
        assert(all.skip(i as int).drop_first() =~= all.skip(i + 1));
        assert(all.skip(i as int)[0] == browsers@[i as int]@);
        if browsers[i].id == *id {
            return Some(i);
        }
        i = i + 1;
    }
    assert(all.skip(i as int) =~= Seq::<BrowserView>::empty());
    None
}

/// The index of the first profile whose id is `id`.
fn profile_position(profiles: &Vec<Profile>, id: &String) -> (r: Option<usize>)
    ensures
        match r {
            Some(j) => find_profile(profiles_view(profiles@), id@) == Some(j as int) && j
                < profiles.len(),
            None => find_profile(profiles_view(profiles@), id@) is None,
        },
{
    let ghost all = profiles_view(profiles@);
    let mut j: usize = 0;
    assert(all.skip(0) =~= all);
    while j < profiles.len()
        invariant
            all == profiles_view(profiles@),
            j <= profiles.len(),
            find_profile(all, id@) == shifted(find_profile(all.skip(j as int), id@), j as int),
        decreases profiles.len() - j,
    {
        assert(all.skip(j as int).drop_first() =~= all.skip(j + 1));
        assert(all.skip(j as int)[0] == profiles@[j as int]@);
        if profiles[j].id == *id {
            return Some(j);
        }
        j = j + 1;
    }
    assert(all.skip(j as int) =~= Seq::<ProfileView>::empty());
    None
}

/// The executable and arguments that open `uri` in the browser, or browser
/// profile, that `browser_spec` names.
pub fn launch_browser_command(browsers: &Vec<Browser>, browser_spec: &String, uri: &str) -> (r:
    Result<(String, Vec<String>), LaunchError>)
    ensures
        launch_view(r) == launch_spec(browsers_view(browsers@), browser_spec@, uri@),
{
    let parts = split_on_colon(browser_spec.as_str());
    proof {
        lemma_split_colon_nonempty(browser_spec@);
    }
    if parts.len() > 2 {
        return Err(LaunchError::InvalidSpec(browser_spec.clone()));
    }
    let ghost bs = browsers_view(browsers@);
    let i = match browser_position(browsers, &parts[0]) {
        Some(i) => i,
        None => {
            return Err(LaunchError::UnknownBrowser(parts[0].clone()));
        },
    };
    let browser = &browsers[i];
    assert(bs[i as int] == browser@);
    if parts.len() == 1 {
        let args = vec![String::from_str(uri)];
        assert(strings_view(args@) =~= seq![uri@]);
        return Ok((browser.command.clone(), args));
    }
    let j = match profile_position(&browser.profiles, &parts[1]) {
        Some(j) => j,
        None => {
            return Err(LaunchError::UnknownProfile(parts[1].clone(), parts[0].clone()));
        },
    };
    let profile = &browser.profiles[j];
    assert(profiles_view(browser.profiles@)[j as int] == profile@);
    let mut args = copy_strings(&profile.args);
    let ghost before = args@;
    args.push(String::from_str(uri));
    assert(strings_view(args@) =~= strings_view(before).push(uri@));
    Ok((browser.command.clone(), args))
}

/// `args` handed to `command` through `open -n -a <command> --args`, the way
/// an application bundle is started on macOS.
pub open spec fn through_open(command: Seq<char>, args: Seq<Seq<char>>) -> (
    Seq<char>,
    Seq<Seq<char>>,
) {
    ("open"@, seq!["-n"@, "-a"@, command, "--args"@] + args)
}

/// Starts `command` with `args` through `open -n -a <command> --args`.
pub fn open_invocation(command: String, args: Vec<String>) -> (r: (String, Vec<String>))
    ensures
        (r.0@, strings_view(r.1@)) == through_open(command@, strings_view(args@)),
{
    let ghost command_view = command@;
    let mut all = vec![
        String::from_str("-n"),
        String::from_str("-a"),
        command,
        String::from_str("--args"),
    ];
    let ghost head = all@;
    let mut rest = args;
    all.append(&mut rest);
    assert(strings_view(all@) =~= seq!["-n"@, "-a"@, command_view, "--args"@] + strings_view(
        args@,
    ));
    (String::from_str("open"), all)
}

/// The launch command for the given platform: on macOS the browser is
/// started through `open`, elsewhere its command is run directly.
pub open spec fn platform_launch_spec(
    platform: Platform,
    browsers: Seq<BrowserView>,
    spec: Seq<char>,
    uri: Seq<char>,
) -> Result<(Seq<char>, Seq<Seq<char>>), LaunchErrorView> {
    match launch_spec(browsers, spec, uri) {
        Ok((exe, args)) => if platform == Platform::MacOs {
            Ok(through_open(exe, args))
        } else {
            Ok((exe, args))
        },
        Err(e) => Err(e),
    }
}

/// The executable and arguments that open `uri` as `browser_spec` asks, on
/// the given platform.
pub fn launch_command_for(
    platform: Platform,
    browsers: &Vec<Browser>,
    browser_spec: &String,
    uri: &str,
) -> (r: Result<(String, Vec<String>), LaunchError>)
    ensures
        launch_view(r) == platform_launch_spec(
            platform,
            browsers_view(browsers@),
            browser_spec@,
            uri@,
        ),
{
    match launch_browser_command(browsers, browser_spec, uri) {
        Ok((exe, args)) => if platform == Platform::MacOs {
            Ok(open_invocation(exe, args))
        } else {
            Ok((exe, args))
        },
        Err(e) => Err(e),
    }
}

/// The browser's executable as the hint's family sees it, when the browser
/// is the one the hint describes (its id is the hint's `exe_path`); empty
/// otherwise. On Linux the command is a desktop entry's `Exec` line, whose
/// `%u` and `%U` placeholders and trailing white space are dropped.
pub open spec fn detected_path(browser: BrowserView, hint: ProfileHintView, platform: Platform) -> Seq<
    char,
> {
    if browser.id != hint.exe_path {
        Seq::empty()
    } else if platform == Platform::Linux {
        trimmed_end(replaced(replaced(browser.command, "%u"@, Seq::empty()), "%U"@, Seq::empty()))
    } else {
        browser.command
    }
}

/// The executable of `browser` if `hint` describes it; empty otherwise.
pub fn detect_path(browser: &Browser, hint: &ProfileHint, platform: Platform) -> (r: String)
    ensures
        r@ == detected_path(browser@, hint@, platform),
{
    if browser.id != hint.exe_path {
        return String::new();
    }
    match platform {
        Platform::Linux => {
            proof {
                reveal_strlit("%u");
                reveal_strlit("%U");
                reveal_strlit("");
                assert(""@ =~= Seq::<char>::empty());
            }
            let one = replace_all(browser.command.as_str(), "%u", "");
            let all = replace_all(one.as_str(), "%U", "");
            String::from_str(trim_end(all.as_str()))
        },
        _ => browser.command.clone(),
    }
}

/// Whether the hint describes the browser and names a profile directory.
pub open spec fn hint_applies(browser: BrowserView, hint: ProfileHintView, platform: Platform) -> bool {
    detected_path(browser, hint, platform).len() > 0 && hint.profiles_path.len() > 0
}

/// The index of the first hint that applies to the browser.
pub open spec fn find_hint(browser: BrowserView, hints: Seq<ProfileHintView>, platform: Platform) -> Option<
    int,
>
    decreases hints.len(),
{
    if hints.len() == 0 {
        None
    } else if hint_applies(browser, hints[0], platform) {
        Some(0)
    } else {
        shifted(find_hint(browser, hints.drop_first(), platform), 1)
    }
}

/// The first hint that applies to the browser: its profiles are listed from
/// that hint's profile directory.
pub fn select_profile_hint(browser: &Browser, hints: &Vec<ProfileHint>, platform: Platform) -> (r:
    Option<usize>)
    ensures
        match r {
            Some(i) => find_hint(browser@, hints_view(hints@), platform) == Some(i as int) && i
                < hints.len(),
            None => find_hint(browser@, hints_view(hints@), platform) is None,
        },
{
    let ghost all = hints_view(hints@);
    let mut i: usize = 0;
    assert(all.skip(0) =~= all);
    while i < hints.len()
        invariant
            all == hints_view(hints@),
            i <= hints.len(),
            find_hint(browser@, all, platform) == shifted(
                find_hint(browser@, all.skip(i as int), platform),
                i as int,
            ),
        decreases hints.len() - i,
    {
        assert(all.skip(i as int).drop_first() =~= all.skip(i + 1));
        assert(all.skip(i as int)[0] == hints@[i as int]@);
        let detected = detect_path(browser, &hints[i], platform);
        if detected.unicode_len() > 0 && hints[i].profiles_path.as_str().unicode_len() > 0 {
            return Some(i);
        }
        i = i + 1;
    }
    assert(all.skip(i as int) =~= Seq::<ProfileHintView>::empty());
    None
}

/// The profile that opens the browser in private mode.
pub open spec fn private_profile(hint: ProfileHintView) -> ProfileView {
    ProfileView {
        id: "__PRIVATE__"@,
        name: hint.private_name,
        args: seq![hint.private_arg],
        icon_path: Seq::empty(),
    }
}

/// The profile that a directory entry stands for.
pub open spec fn entry_profile(hint: ProfileHintView, entry: ProfileDirEntryView) -> ProfileView {
    ProfileView {
        id: entry.name,
        name: entry.name,
        args: profile_args(hint, entry.name),
        icon_path: if hint.icon_path.len() == 0 {
            Seq::empty()
        } else {
            entry.icon_path
        },
    }
}

/// Whether a directory entry is a real profile: a directory holding the
/// family's marker file.
pub open spec fn is_profile_entry(entry: ProfileDirEntryView) -> bool {
    entry.is_dir && entry.has_marker
}

/// The profiles that the entries of a profile directory stand for, in order.
pub open spec fn listed_profiles(hint: ProfileHintView, entries: Seq<ProfileDirEntryView>) -> Seq<
    ProfileView,
>
    decreases entries.len(),
{
    if entries.len() == 0 {
        Seq::empty()
    } else {
        let head = listed_profiles(hint, entries.drop_last());
        if is_profile_entry(entries.last()) {
            head.push(entry_profile(hint, entries.last()))
        } else {
            head
        }
    }
}

/// A browser's profiles: its private mode first, then one profile for each
/// real profile directory.
pub open spec fn profile_list(hint: ProfileHintView, entries: Seq<ProfileDirEntryView>) -> Seq<
    ProfileView,
> {
    seq![private_profile(hint)] + listed_profiles(hint, entries)
}

/// Lists a browser's profiles from the entries of its family's profile
/// directory.
pub fn build_profiles(hint: &ProfileHint, entries: &Vec<ProfileDirEntry>) -> (r: Vec<Profile>)
    ensures
        profiles_view(r@) == profile_list(hint@, entries_view(entries@)),
{
    let private = Profile {
        id: String::from_str("__PRIVATE__"),
        name: hint.private_name.clone(),
        args: vec![hint.private_arg.clone()],
        icon_path: String::new(),
    };
    assert(strings_view(private.args@) =~= seq![hint@.private_arg]);
    let mut r: Vec<Profile> = vec![private];
    let ghost all = entries_view(entries@);
    let mut i: usize = 0;
    assert(all.take(0) =~= Seq::<ProfileDirEntryView>::empty());
    assert(profiles_view(r@) =~= profile_list(hint@, all.take(0)));
    while i < entries.len()
        invariant
            all == entries_view(entries@),
            i <= entries.len(),
            profiles_view(r@) == profile_list(hint@, all.take(i as int)),
        decreases entries.len() - i,
    {
        let entry = &entries[i];
        assert(all.take(i + 1).drop_last() =~= all.take(i as int));
        assert(all.take(i + 1).last() == entry@);
        if entry.is_dir && entry.has_marker {
            let icon_path = if hint.icon_path.as_str().unicode_len() == 0 {
                String::new()
            } else {
                entry.icon_path.clone()
            };
            let profile = Profile {
                id: entry.name.clone(),
                name: entry.name.clone(),
                args: hint.construct_profile_arguments(entry.name.as_str()),
                icon_path,
            };
            assert(profile@ == entry_profile(hint@, entry@));
            let ghost before = r@;
            r.push(profile);
            assert(profiles_view(r@) =~= profiles_view(before).push(profile@));
        }
        i = i + 1;
    }
    assert(all.take(i as int) =~= all);
    r
}

} // verus!
