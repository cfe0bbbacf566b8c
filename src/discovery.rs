//! The rules that browser discovery and registration follow: which
//! applications count as browsers, how the placeholders of a stored path are
//! expanded, and the texts written when registering as a browser.
use vstd::prelude::*;
use crate::text::{contains_str, occurs_in, replace_all, replaced, strings_view};
use crate::types::Platform;

verus! {

/// Whether a URL scheme is one that a browser must handle.
pub open spec fn is_web_scheme_spec(scheme: Seq<char>) -> bool {
    scheme == "http"@ || scheme == "https"@
}

/// Whether a URL scheme is `http` or `https`.
pub fn is_web_scheme(scheme: &str) -> (r: bool)
    ensures
        r == is_web_scheme_spec(scheme@),
{
    let s = String::from_str(scheme);
    s == String::from_str("http") || s == String::from_str("https")
}

/// Whether one of the schemes is `http` or `https`: an application that
/// declares such a scheme is a browser.
pub fn handles_web_schemes(schemes: &Vec<String>) -> (r: bool)
    ensures
        r == exists|i: int| 0 <= i < schemes@.len() && is_web_scheme_spec(#[trigger] schemes@[i]@),
{
    let mut i: usize = 0;
    while i < schemes.len()
        invariant
            i <= schemes.len(),
            forall|j: int| 0 <= j < i ==> !is_web_scheme_spec(#[trigger] schemes@[j]@),
        decreases schemes.len() - i,
    {
        if is_web_scheme(schemes[i].as_str()) {
            return true;
        }
        i = i + 1;
    }
    false
}

/// Whether a MIME type is the handler type of `http` or `https` URLs.
pub open spec fn is_web_mime(mime: Seq<char>) -> bool {
    mime == "x-scheme-handler/http"@ || mime == "x-scheme-handler/https"@
}

/// Whether one of the MIME types that a desktop entry handles is that of
/// `http` or `https` URLs: such an entry is a browser.
pub fn handles_web_mimes(mimes: &Vec<String>) -> (r: bool)
    ensures
        r == exists|i: int| 0 <= i < mimes@.len() && is_web_mime(#[trigger] mimes@[i]@),
{
    let https = String::from_str("x-scheme-handler/https");
    let http = String::from_str("x-scheme-handler/http");
    let mut i: usize = 0;
    while i < mimes.len()
        invariant
            i <= mimes.len(),
            https@ == "x-scheme-handler/https"@,
            http@ == "x-scheme-handler/http"@,
            forall|j: int| 0 <= j < i ==> !is_web_mime(#[trigger] mimes@[j]@),
        decreases mimes.len() - i,
    {
        if mimes[i] == https || mimes[i] == http {
            return true;
        }
        i = i + 1;
    }
    false
}

/// A placeholder that a stored path may hold, and the environment variable
/// that it stands for.
#[derive(Debug, Clone, Copy, PartialEq, Eq, Structural)]
pub enum PathVariable {
    /// `%programfiles%`, from `programfiles`.
    ProgramFiles,
    /// `%appdata%`, from `appdata`.
    AppData,
    /// `%localappdata%`, from `localappdata`.
    LocalAppData,
    /// `~`, from `HOME`.
    Home,
}

/// The text of a placeholder in a path.
pub open spec fn placeholder_text(v: PathVariable) -> Seq<char> {
    match v {
        PathVariable::ProgramFiles => "%programfiles%"@,
        PathVariable::AppData => "%appdata%"@,
        PathVariable::LocalAppData => "%localappdata%"@,
        PathVariable::Home => "~"@,
    }
}

/// The environment variable that a placeholder stands for.
pub open spec fn variable_name(v: PathVariable) -> Seq<char> {
    match v {
        PathVariable::ProgramFiles => "programfiles"@,
        PathVariable::AppData => "appdata"@,
        PathVariable::LocalAppData => "localappdata"@,
        PathVariable::Home => "HOME"@,
    }
}

impl PathVariable {
    /// The placeholder's text in a path.
    pub fn placeholder(&self) -> (r: &'static str)
        ensures
            r@ == placeholder_text(*self),
    {
        match self {
            PathVariable::ProgramFiles => "%programfiles%",
            PathVariable::AppData => "%appdata%",
            PathVariable::LocalAppData => "%localappdata%",
            PathVariable::Home => "~",
        }
    }

    /// The environment variable that the placeholder stands for.
    pub fn env_name(&self) -> (r: &'static str)
        ensures
            r@ == variable_name(*self),
    {
        match self {
            PathVariable::ProgramFiles => "programfiles",
            PathVariable::AppData => "appdata",
            PathVariable::LocalAppData => "localappdata",
            PathVariable::Home => "HOME",
        }
    }
}

/// The placeholder to expand in a path: on Windows the first of
/// `%programfiles%`, `%appdata%`, `%localappdata%` that the path holds;
/// elsewhere `~` if the path holds it.
pub open spec fn path_placeholder_spec(path: Seq<char>, platform: Platform) -> Option<PathVariable> {
    if platform == Platform::Windows {
        if occurs_in(path, "%programfiles%"@) {
            Some(PathVariable::ProgramFiles)
        } else if occurs_in(path, "%appdata%"@) {
            Some(PathVariable::AppData)
        } else if occurs_in(path, "%localappdata%"@) {
            Some(PathVariable::LocalAppData)
        } else {
            None
        }
    } else if occurs_in(path, "~"@) {
        Some(PathVariable::Home)
    } else {
        None
    }
}

/// The placeholder to expand in `path`, if any.
pub fn path_placeholder(path: &str, platform: Platform) -> (r: Option<PathVariable>)
    ensures
        r == path_placeholder_spec(path@, platform),
{
    if platform == Platform::Windows {
        if contains_str(path, "%programfiles%") {
            Some(PathVariable::ProgramFiles)
        } else if contains_str(path, "%appdata%") {
            Some(PathVariable::AppData)
        } else if contains_str(path, "%localappdata%") {
            Some(PathVariable::LocalAppData)
        } else {
            None
        }
    } else if contains_str(path, "~") {
        Some(PathVariable::Home)
    } else {
        None
    }
}

/// `path` with every occurrence of the placeholder replaced by `value`.
pub fn expand_placeholder(path: &str, v: PathVariable, value: &str) -> (r: String)
    ensures
        r@ == replaced(path@, placeholder_text(v), value@),
{
    proof {
        reveal_strlit("%programfiles%");
        reveal_strlit("%appdata%");
        reveal_strlit("%localappdata%");
        reveal_strlit("~");
    }
    replace_all(path, v.placeholder(), value)
}

/// The variable that names the other program files directory, where
/// browsers of the other architecture may be installed: a 32-bit process on
/// 64-bit Windows looks under `programw6432`, a 64-bit one under
/// `programfiles(x86)`, and a 32-bit one on 32-bit Windows nowhere else.
pub open spec fn other_program_files_spec(wow64: bool, is_64: bool) -> Option<Seq<char>> {
    if wow64 {
        Some("programw6432"@)
    } else if is_64 {
        Some("programfiles(x86)"@)
    } else {
        None
    }
}

/// The variable that names the other program files directory, if any.
pub fn other_program_files(wow64: bool, is_64: bool) -> (r: Option<&'static str>)
    ensures
        match r {
            Some(name) => other_program_files_spec(wow64, is_64) == Some(name@),
            None => other_program_files_spec(wow64, is_64) is None,
        },
{
    if wow64 {
        Some("programw6432")
    } else if is_64 {
        Some("programfiles(x86)")
    } else {
        None
    }
}

/// The path of an executable without the `\\?\` prefix of a Windows
/// verbatim path.
pub open spec fn without_verbatim_prefix(path: Seq<char>) -> Seq<char> {
    let prefix = "\\\\?\\"@;
    if path.len() >= prefix.len() && path.take(prefix.len() as int) == prefix {
        path.skip(prefix.len() as int)
    } else {
        path
    }
}

/// Drops the `\\?\` prefix from a Windows verbatim path.
pub fn strip_verbatim_prefix(path: &str) -> (r: &str)
    ensures
        r@ == without_verbatim_prefix(path@),
{
    proof {
        reveal_strlit("\\\\?\\");
    }
    let n = path.unicode_len();
    if n >= 4 && String::from_str(path.substring_char(0, 4)) == String::from_str("\\\\?\\") {
        assert(path@.subrange(0, 4) =~= path@.take(4));
        assert(path@.subrange(4, n as int) =~= path@.skip(4));
        path.substring_char(4, n)
    } else {
        proof {
            if path@.len() >= 4 {
                assert(path@.subrange(0, 4) =~= path@.take(4));
            }
        }
        path
    }
}

/// The part of the desktop entry that comes before the executable's path.
pub open spec fn desktop_entry_head() -> Seq<char> {
    "[Desktop Entry]\nName=bro\nGenericName=bro: a browser selector\nComment=Redirects open URLs to a browser of your choice.\nKeywords=web;browser;internet;\nExec="@
}

/// The part of the desktop entry that comes after the executable's path.
pub open spec fn desktop_entry_tail() -> Seq<char> {
    " %u\nStartupNotify=true\nTerminal=false\nType=Application\n#Icon=bro\nCategories=Network;WebBrowser;\nMimeType=x-scheme-handler/http;x-scheme-handler/https\n"@
}

/// The desktop entry that registers the executable as a browser on Linux.
pub fn desktop_entry(exe: &str) -> (r: String)
    ensures
        r@ == desktop_entry_head() + exe@ + desktop_entry_tail(),
{
    let mut r = String::from_str(
        "[Desktop Entry]\nName=bro\nGenericName=bro: a browser selector\nComment=Redirects open URLs to a browser of your choice.\nKeywords=web;browser;internet;\nExec=",
    );
    r.append(exe);
    r.append(
        " %u\nStartupNotify=true\nTerminal=false\nType=Application\n#Icon=bro\nCategories=Network;WebBrowser;\nMimeType=x-scheme-handler/http;x-scheme-handler/https\n",
    );
    r
}

} // verus!
