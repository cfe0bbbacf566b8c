//! Routing a URL: the rules pick a browser specification, which is resolved
//! against the detected browsers followed by the user's own.
use vstd::prelude::*;
use crate::browser::{launch_command_for, platform_launch_spec};
use crate::rule::{compile_all, compile_rules, evaluate, match_rules};
use crate::text::strings_view;
use crate::types::{Browser, BrowserView, LaunchError, LaunchErrorView, Platform, Rule};
use crate::types::{RuleError, RuleErrorView, RuleView, browsers_view, rules_view};

verus! {

/// Why a URL could not be routed to a browser.
#[derive(Debug, Clone, PartialEq, Eq)]
pub enum RouteError {
    /// The configuration lists no detected browsers or no rules.
    EmptyConfig,
    /// A rule does not compile.
    Rule(RuleError),
    /// The selected browser specification cannot be resolved.
    Launch(LaunchError),
}

pub enum RouteErrorView {
    EmptyConfig,
    Rule(RuleErrorView),
    Launch(LaunchErrorView),
}

impl View for RouteError {
    type V = RouteErrorView;

    open spec fn view(&self) -> RouteErrorView {
        match self {
            RouteError::EmptyConfig => RouteErrorView::EmptyConfig,
            RouteError::Rule(e) => RouteErrorView::Rule(e@),
            RouteError::Launch(e) => RouteErrorView::Launch(e@),
        }
    }
}

/// What opening `uri` comes to: a configuration without detected browsers
/// or without rules is refused; otherwise the rules are compiled, the first
/// one that matches picks the specification, and that is resolved against
/// the detected browsers followed by the custom ones.
pub open spec fn route_spec(
    platform: Platform,
    detected: Seq<BrowserView>,
    custom: Seq<BrowserView>,
    rules: Seq<RuleView>,
    uri: Seq<char>,
) -> Result<(Seq<char>, Seq<Seq<char>>), RouteErrorView> {
    if detected.len() == 0 || rules.len() == 0 {
        Err(RouteErrorView::EmptyConfig)
    } else {
        match compile_all(rules) {
            Err(e) => Err(RouteErrorView::Rule(e)),
            Ok(cs) => match platform_launch_spec(platform, detected + custom, evaluate(cs, uri), uri) {
                Ok(c) => Ok(c),
                Err(e) => Err(RouteErrorView::Launch(e)),
            },
        }
    }
}

/// The view of a routed command or of the error in its place.
pub open spec fn route_view(r: Result<(String, Vec<String>), RouteError>) -> Result<
    (Seq<char>, Seq<Seq<char>>),
    RouteErrorView,
> {
    match r {
        Ok((exe, args)) => Ok((exe@, strings_view(args@))),
        Err(e) => Err(e@),
    }
}

/// The executable and arguments that open `uri` in the browser that the
/// rules select.
pub fn route_uri(
    platform: Platform,
    detected: Vec<Browser>,
    custom: Vec<Browser>,
    rules: &Vec<Rule>,
    uri: &str,
) -> (r: Result<(String, Vec<String>), RouteError>)
    ensures
        route_view(r) == route_spec(
            platform,
            browsers_view(detected@),
            browsers_view(custom@),
            rules_view(rules@),
            uri@,
        ),
{
    if detected.len() == 0 || rules.len() == 0 {
        return Err(RouteError::EmptyConfig);
    }
    let compiled = match compile_rules(rules) {
        Ok(compiled) => compiled,
        Err(e) => {
            return Err(RouteError::Rule(e));
        },
    };
    let target = match_rules(&compiled, uri);
    let ghost first = detected@;
    let mut browsers = detected;
    let mut rest = custom;
    browsers.append(&mut rest);
    assert(browsers_view(browsers@) =~= browsers_view(first) + browsers_view(custom@));
    match launch_command_for(platform, &browsers, &target, uri) {
        Ok(c) => Ok(c),
        Err(e) => Err(RouteError::Launch(e)),
    }
}

} // verus!
