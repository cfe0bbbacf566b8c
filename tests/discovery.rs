use bro::discovery::{
    desktop_entry, expand_placeholder, handles_web_mimes, handles_web_schemes, is_web_scheme,
    other_program_files, path_placeholder, strip_verbatim_prefix, PathVariable,
};
use bro::text::contains_str;
use bro::types::Platform;

fn strings(v: &[&str]) -> Vec<String> {
    v.iter().map(|s| s.to_string()).collect()
}

#[test]
fn web_schemes() {
    assert!(is_web_scheme("http"));
    assert!(is_web_scheme("https"));
    assert!(!is_web_scheme("HTTP"));
    assert!(!is_web_scheme("ftp"));
    assert!(handles_web_schemes(&strings(&["mailto", "https"])));
    assert!(!handles_web_schemes(&strings(&["mailto", "ftp"])));
    assert!(!handles_web_schemes(&Vec::new()));
}

#[test]
fn web_mimes() {
    assert!(handles_web_mimes(&strings(&["text/html", "x-scheme-handler/http"])));
    assert!(handles_web_mimes(&strings(&["x-scheme-handler/https"])));
    assert!(!handles_web_mimes(&strings(&["text/html", "x-scheme-handler/ftp"])));
}

#[test]
fn placeholders_by_platform() {
    assert_eq!(
        path_placeholder("~/.config/google-chrome", Platform::Linux),
        Some(PathVariable::Home)
    );
    assert_eq!(path_placeholder("/etc/x", Platform::MacOs), None);
    assert_eq!(
        path_placeholder("%programfiles%\\Mozilla Firefox\\firefox.exe", Platform::Windows),
        Some(PathVariable::ProgramFiles)
    );
    assert_eq!(
        path_placeholder("%appdata%\\Mozilla", Platform::Windows),
        Some(PathVariable::AppData)
    );
    assert_eq!(
        path_placeholder("%localappdata%\\Google", Platform::Windows),
        Some(PathVariable::LocalAppData)
    );
    assert_eq!(path_placeholder("~\\x", Platform::Windows), None);
    assert_eq!(PathVariable::Home.env_name(), "HOME");
    assert_eq!(PathVariable::LocalAppData.placeholder(), "%localappdata%");
}

#[test]
fn expanding_placeholders() {
    assert_eq!(
        expand_placeholder("~/.config/x", PathVariable::Home, "/home/u"),
        "/home/u/.config/x"
    );
    assert_eq!(
        expand_placeholder("%appdata%\\a", PathVariable::AppData, "C:\\Users\\u\\AppData"),
        "C:\\Users\\u\\AppData\\a"
    );
}

#[test]
fn other_program_files_by_architecture() {
    assert_eq!(other_program_files(true, true), Some("programw6432"));
    assert_eq!(other_program_files(true, false), Some("programw6432"));
    assert_eq!(other_program_files(false, true), Some("programfiles(x86)"));
    assert_eq!(other_program_files(false, false), None);
}

#[test]
fn verbatim_prefix() {
    assert_eq!(strip_verbatim_prefix("\\\\?\\C:\\bro.exe"), "C:\\bro.exe");
    assert_eq!(strip_verbatim_prefix("C:\\bro.exe"), "C:\\bro.exe");
    assert_eq!(strip_verbatim_prefix("\\\\?"), "\\\\?");
}

#[test]
fn desktop_entry_names_the_executable() {
    let entry = desktop_entry("/usr/bin/bro");
    assert!(entry.starts_with("[Desktop Entry]\n"));
    assert!(entry.contains("\nExec=/usr/bin/bro %u\n"));
    assert!(entry.ends_with("MimeType=x-scheme-handler/http;x-scheme-handler/https\n"));
}

#[test]
fn contains_finds_substrings() {
    assert!(contains_str("abc", "bc"));
    assert!(contains_str("abc", ""));
    assert!(!contains_str("abc", "abcd"));
    assert!(!contains_str("", "a"));
}
