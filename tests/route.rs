use bro::route::{route_uri, RouteError};
use bro::types::{Browser, LaunchError, Platform, Profile, Rule, RuleError};

fn s(x: &str) -> String {
    x.to_string()
}

fn browser(id: &str, command: &str, profiles: Vec<Profile>) -> Browser {
    Browser {
        id: s(id),
        name: s(id),
        command: s(command),
        profiles,
    }
}

fn detected() -> Vec<Browser> {
    vec![browser(
        "chrome",
        "/bin/chrome",
        vec![Profile {
            id: s("Work"),
            name: s("Work"),
            args: vec![s("--profile-directory=Work")],
            icon_path: String::new(),
        }],
    )]
}

#[test]
fn route_picks_rule_and_profile() {
    let rules = vec![
        Rule::new("DOMAIN-SUFFIX", "contoso.com", "chrome:Work"),
        Rule::new("FINAL", "", "firefox"),
    ];
    let custom = vec![browser("firefox", "/bin/firefox", vec![])];
    assert_eq!(
        route_uri(Platform::Linux, detected(), custom.clone(), &rules, "https://a.contoso.com/"),
        Ok((s("/bin/chrome"), vec![s("--profile-directory=Work"), s("https://a.contoso.com/")]))
    );
    assert_eq!(
        route_uri(Platform::Linux, detected(), custom, &rules, "https://other.org/"),
        Ok((s("/bin/firefox"), vec![s("https://other.org/")]))
    );
}

#[test]
fn route_refuses_empty_config() {
    let rules = vec![Rule::new("FINAL", "", "chrome")];
    assert_eq!(
        route_uri(Platform::Linux, vec![], vec![], &rules, "u"),
        Err(RouteError::EmptyConfig)
    );
    assert_eq!(
        route_uri(Platform::Linux, detected(), vec![], &vec![], "u"),
        Err(RouteError::EmptyConfig)
    );
}

#[test]
fn route_reports_rule_and_launch_errors() {
    let rules = vec![Rule::new("BOGUS", "", "chrome")];
    assert_eq!(
        route_uri(Platform::Linux, detected(), vec![], &rules, "u"),
        Err(RouteError::Rule(RuleError::UnknownMatcher(s("BOGUS"))))
    );
    let rules = vec![Rule::new("DOMAIN", "a.com", "chrome")];
    assert_eq!(
        route_uri(Platform::Linux, detected(), vec![], &rules, "https://b.com/"),
        Err(RouteError::Launch(LaunchError::UnknownBrowser(s(""))))
    );
}

#[test]
fn route_on_macos_goes_through_open() {
    let rules = vec![Rule::new("FINAL", "", "chrome")];
    assert_eq!(
        route_uri(Platform::MacOs, detected(), vec![], &rules, "u"),
        Ok((
            s("open"),
            vec![s("-n"), s("-a"), s("/bin/chrome"), s("--args"), s("u")]
        ))
    );
}
