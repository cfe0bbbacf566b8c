//! The data model: browsers and their profiles, rules and compiled rules,
//! per-family profile hints, and the errors of compilation and launch.
use vstd::prelude::*;
use crate::text::strings_view;

verus! {

/// A named launch configuration of a browser: a user profile, or its
/// private mode.
#[derive(Debug, Clone, PartialEq, Eq)]
pub struct Profile {
    pub id: String,
    pub name: String,
    pub args: Vec<String>,
    pub icon_path: String,
}

pub struct ProfileView {
    pub id: Seq<char>,
    pub name: Seq<char>,
    pub args: Seq<Seq<char>>,
    pub icon_path: Seq<char>,
}

impl View for Profile {
    type V = ProfileView;

    open spec fn view(&self) -> ProfileView {
        ProfileView {
            id: self.id@,
            name: self.name@,
            args: strings_view(self.args@),
            icon_path: self.icon_path@,
        }
    }
}

/// The views of a sequence of profiles.
pub open spec fn profiles_view(v: Seq<Profile>) -> Seq<ProfileView> {
    v.map_values(|p: Profile| p@)
}

/// A browser that a URL can be opened in.
#[derive(Debug, Clone, PartialEq, Eq)]
pub struct Browser {
    pub id: String,
    pub name: String,
    pub command: String,
    pub profiles: Vec<Profile>,
}

pub struct BrowserView {
    pub id: Seq<char>,
    pub name: Seq<char>,
    pub command: Seq<char>,
    pub profiles: Seq<ProfileView>,
}

impl View for Browser {
    type V = BrowserView;

    open spec fn view(&self) -> BrowserView {
        BrowserView {
            id: self.id@,
            name: self.name@,
            command: self.command@,
            profiles: profiles_view(self.profiles@),
        }
    }
}

/// The views of a sequence of browsers.
pub open spec fn browsers_view(v: Seq<Browser>) -> Seq<BrowserView> {
    v.map_values(|b: Browser| b@)
}

/// A user's rule: a matcher keyword, its pattern, and the browser
/// specification (`browser` or `browser:profile`) that a match selects.
#[derive(Debug, Clone, PartialEq, Eq)]
pub struct Rule {
    pub matcher: String,
    pub pattern: String,
    pub browser: String,
}

pub struct RuleView {
    pub matcher: Seq<char>,
    pub pattern: Seq<char>,
    pub browser: Seq<char>,
}

impl View for Rule {
    type V = RuleView;

    open spec fn view(&self) -> RuleView {
        RuleView { matcher: self.matcher@, pattern: self.pattern@, browser: self.browser@ }
    }
}

/// The views of a sequence of rules.
pub open spec fn rules_view(v: Seq<Rule>) -> Seq<RuleView> {
    v.map_values(|r: Rule| r@)
}

/// How a rule's pattern is read.
#[derive(Debug, Clone, Copy, PartialEq, Eq, Structural)]
pub enum MatcherKind {
    Wildcard,
    Regex,
    DomainWildcard,
    Domain,
    DomainSuffix,
    Final,
}

/// A matcher ready to be applied: the pattern that a rule compiled to.
#[derive(Debug, Clone, PartialEq, Eq)]
pub enum CompiledMatcher {
    /// A glob over the whole URL.
    Wildcard(String),
    /// Two globs over the whole URL; the matcher matches when either does.
    EitherWildcard(String, String),
    /// A regex searched for in the URL.
    Regex(String),
}

pub enum MatcherView {
    Wildcard(Seq<char>),
    EitherWildcard(Seq<char>, Seq<char>),
    Regex(Seq<char>),
}

impl View for CompiledMatcher {
    type V = MatcherView;

    open spec fn view(&self) -> MatcherView {
        match self {
            CompiledMatcher::Wildcard(p) => MatcherView::Wildcard(p@),
            CompiledMatcher::EitherWildcard(p, q) => MatcherView::EitherWildcard(p@, q@),
            CompiledMatcher::Regex(p) => MatcherView::Regex(p@),
        }
    }
}

/// A rule after compilation; `rule` is kept for diagnostics only.
#[derive(Debug, Clone, PartialEq, Eq)]
pub struct CompiledRule {
    pub matcher: CompiledMatcher,
    pub browser: String,
    pub rule: Rule,
}

pub struct CompiledRuleView {
    pub matcher: MatcherView,
    pub browser: Seq<char>,
    pub rule: RuleView,
}

impl View for CompiledRule {
    type V = CompiledRuleView;

    open spec fn view(&self) -> CompiledRuleView {
        CompiledRuleView { matcher: self.matcher@, browser: self.browser@, rule: self.rule@ }
    }
}

/// The views of a sequence of compiled rules.
pub open spec fn compiled_view(v: Seq<CompiledRule>) -> Seq<CompiledRuleView> {
    v.map_values(|r: CompiledRule| r@)
}

/// Why a rule did not compile.
#[derive(Debug, Clone, PartialEq, Eq)]
pub enum RuleError {
    /// The matcher keyword is none of the known ones.
    UnknownMatcher(String),
    /// The regular expression built for the rule does not parse; `message`
    /// is the parser's.
    InvalidPattern { pattern: String, message: String },
}

pub enum RuleErrorView {
    UnknownMatcher(Seq<char>),
    InvalidPattern(Seq<char>, Seq<char>),
}

impl View for RuleError {
    type V = RuleErrorView;

    open spec fn view(&self) -> RuleErrorView {
        match self {
            RuleError::UnknownMatcher(m) => RuleErrorView::UnknownMatcher(m@),
            RuleError::InvalidPattern { pattern, message } => RuleErrorView::InvalidPattern(
                pattern@,
                message@,
            ),
        }
    }
}

/// Why a browser specification could not be resolved.
#[derive(Debug, Clone, PartialEq, Eq)]
pub enum LaunchError {
    /// The specification has more than one `:`.
    InvalidSpec(String),
    /// No browser has this id.
    UnknownBrowser(String),
    /// The browser (second field) has no profile with this id (first field).
    UnknownProfile(String, String),
}

pub enum LaunchErrorView {
    InvalidSpec(Seq<char>),
    UnknownBrowser(Seq<char>),
    UnknownProfile(Seq<char>, Seq<char>),
}

impl View for LaunchError {
    type V = LaunchErrorView;

    open spec fn view(&self) -> LaunchErrorView {
        match self {
            LaunchError::InvalidSpec(s) => LaunchErrorView::InvalidSpec(s@),
            LaunchError::UnknownBrowser(b) => LaunchErrorView::UnknownBrowser(b@),
            LaunchError::UnknownProfile(p, b) => LaunchErrorView::UnknownProfile(p@, b@),
        }
    }
}

/// A browser family, which decides how profile arguments are written and
/// which file marks a directory as a real profile.
#[derive(Debug, Clone, Copy, PartialEq, Eq, Structural)]
pub enum ProfileFamily {
    /// One combined flag, `<profile_arg><name>`; marked by `History`.
    Chromium,
    /// Two tokens, `<profile_arg>` and `<name>`; marked by `cookies.sqlite`.
    Firefox,
}

/// The operating system that browsers are discovered and launched on.
#[derive(Debug, Clone, Copy, PartialEq, Eq, Structural)]
pub enum Platform {
    Windows,
    Linux,
    MacOs,
}

/// What is known of one browser family on one platform: where it is
/// installed, where its profiles live and how its profiles are launched.
#[derive(Debug, Clone, PartialEq, Eq)]
pub struct ProfileHint {
    pub exe_path: String,
    pub profiles_path: String,
    pub private_arg: String,
    pub private_name: String,
    pub profile_arg: String,
    pub family: ProfileFamily,
    pub icon_path: String,
}

pub struct ProfileHintView {
    pub exe_path: Seq<char>,
    pub profiles_path: Seq<char>,
    pub private_arg: Seq<char>,
    pub private_name: Seq<char>,
    pub profile_arg: Seq<char>,
    pub family: ProfileFamily,
    pub icon_path: Seq<char>,
}

impl View for ProfileHint {
    type V = ProfileHintView;

    open spec fn view(&self) -> ProfileHintView {
        ProfileHintView {
            exe_path: self.exe_path@,
            profiles_path: self.profiles_path@,
            private_arg: self.private_arg@,
            private_name: self.private_name@,
            profile_arg: self.profile_arg@,
            family: self.family,
            icon_path: self.icon_path@,
        }
    }
}

/// One entry of a family's profile directory, as the file system shows it.
#[derive(Debug, Clone, PartialEq, Eq)]
pub struct ProfileDirEntry {
    /// The entry's file name.
    pub name: String,
    /// Whether the entry is a directory.
    pub is_dir: bool,
    /// Whether the family's marker file exists in it.
    pub has_marker: bool,
    /// The profile's icon file if the family names one and it exists; else
    /// empty.
    pub icon_path: String,
}

pub struct ProfileDirEntryView {
    pub name: Seq<char>,
    pub is_dir: bool,
    pub has_marker: bool,
    pub icon_path: Seq<char>,
}

impl View for ProfileDirEntry {
    type V = ProfileDirEntryView;

    open spec fn view(&self) -> ProfileDirEntryView {
        ProfileDirEntryView {
            name: self.name@,
            is_dir: self.is_dir,
            has_marker: self.has_marker,
            icon_path: self.icon_path@,
        }
    }
}

/// The views of a sequence of directory entries.
pub open spec fn entries_view(v: Seq<ProfileDirEntry>) -> Seq<ProfileDirEntryView> {
    v.map_values(|e: ProfileDirEntry| e@)
}

/// The views of a sequence of hints.
pub open spec fn hints_view(v: Seq<ProfileHint>) -> Seq<ProfileHintView> {
    v.map_values(|h: ProfileHint| h@)
}

} // verus!
