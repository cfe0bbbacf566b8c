//! Rule compilation and first-match evaluation.
use vstd::prelude::*;
use crate::pattern::{glob_matches, lemma_star_matches_all, regex_accepts, regex_finds};
use crate::pattern::{check_regex, regex_error_text, regex_is_match, wildcard_matches};
use crate::text::{replace_all, replaced};
use crate::types::{CompiledMatcher, CompiledRule, CompiledRuleView, MatcherKind, MatcherView};
use crate::types::{Rule, RuleError, RuleErrorView, RuleView, compiled_view, rules_view};

verus! {

/// The matcher kind that a keyword names; the keywords are case-sensitive.
pub open spec fn matcher_kind(keyword: Seq<char>) -> Option<MatcherKind> {
    if keyword == "WILDCARD"@ {
        Some(MatcherKind::Wildcard)
    } else if keyword == "REGEX"@ {
        Some(MatcherKind::Regex)
    } else if keyword == "DOMAIN-WILDCARD"@ {
        Some(MatcherKind::DomainWildcard)
    } else if keyword == "DOMAIN"@ {
        Some(MatcherKind::Domain)
    } else if keyword == "DOMAIN-SUFFIX"@ {
        Some(MatcherKind::DomainSuffix)
    } else if keyword == "FINAL"@ {
        Some(MatcherKind::Final)
    } else {
        None
    }
}

/// A domain with each `.` escaped, so that in a regex it matches only a dot.
pub open spec fn escaped_domain(p: Seq<char>) -> Seq<char> {
    replaced(p, "."@, "\\."@)
}

/// The matcher that a pattern of the given kind compiles to.
pub open spec fn compiled_matcher(kind: MatcherKind, p: Seq<char>) -> MatcherView {
    match kind {
        MatcherKind::Wildcard => MatcherView::Wildcard(p),
        MatcherKind::Regex => MatcherView::Regex(p),
        MatcherKind::DomainWildcard => MatcherView::EitherWildcard(
            "http://"@ + p + "/*"@,
            "https://"@ + p + "/*"@,
        ),
        MatcherKind::Domain => MatcherView::Regex("^http[s]?://"@ + escaped_domain(p) + "/.*"@),
        MatcherKind::DomainSuffix => MatcherView::Regex(
            "^http[s]?://(.+\\.)?"@ + escaped_domain(p) + "/.*"@,
        ),
        MatcherKind::Final => MatcherView::Wildcard("*"@),
    }
}

/// What compiling a rule gives: an unknown keyword and a regex that does not
/// parse are errors; anything else is a compiled rule.
pub open spec fn compile_spec(rule: RuleView) -> Result<CompiledRuleView, RuleErrorView> {
    match matcher_kind(rule.matcher) {
        None => Err(RuleErrorView::UnknownMatcher(rule.matcher)),
        Some(kind) => {
            let m = compiled_matcher(kind, rule.pattern);
            if m is Regex && !regex_accepts(m->Regex_0) {
                Err(RuleErrorView::InvalidPattern(m->Regex_0, regex_error_text(m->Regex_0)))
            } else {
                Ok(CompiledRuleView { matcher: m, browser: rule.browser, rule })
            }
        }
    }
}

/// What compiling a list of rules in order gives: every compiled rule, or
/// the error of the first rule that does not compile.
pub open spec fn compile_all(rules: Seq<RuleView>) -> Result<
    Seq<CompiledRuleView>,
    RuleErrorView,
>
    decreases rules.len(),
{
    if rules.len() == 0 {
        Ok(Seq::empty())
    } else {
        match compile_spec(rules[0]) {
            Err(e) => Err(e),
            Ok(c) => match compile_all(rules.drop_first()) {
                Err(e) => Err(e),
                Ok(cs) => Ok(seq![c] + cs),
            },
        }
    }
}

/// The view of the result of compiling one rule.
pub open spec fn compiled_result_view(r: Result<CompiledRule, RuleError>) -> Result<
    CompiledRuleView,
    RuleErrorView,
> {
    match r {
        Ok(c) => Ok(c@),
        Err(e) => Err(e@),
    }
}

/// The view of the result of compiling a list of rules.
pub open spec fn compiled_list_view(r: Result<Vec<CompiledRule>, RuleError>) -> Result<
    Seq<CompiledRuleView>,
    RuleErrorView,
> {
    match r {
        Ok(v) => Ok(compiled_view(v@)),
        Err(e) => Err(e@),
    }
}

/// Whether a compiled matcher matches a URL.
pub open spec fn matcher_accepts(m: MatcherView, url: Seq<char>) -> bool {
    match m {
        MatcherView::Wildcard(p) => glob_matches(p, url),
        MatcherView::EitherWildcard(p, q) => glob_matches(p, url) || glob_matches(q, url),
        MatcherView::Regex(p) => regex_accepts(p) && regex_finds(p, url),
    }
}

/// The target of the first rule whose matcher matches the URL, or the
/// empty string when none does.
pub open spec fn evaluate(rules: Seq<CompiledRuleView>, url: Seq<char>) -> Seq<char>
    decreases rules.len(),
{
    if rules.len() == 0 {
        Seq::empty()
    } else if matcher_accepts(rules[0].matcher, url) {
        rules[0].browser
    } else {
        evaluate(rules.drop_first(), url)
    }
}

/// Evaluation picks the first matching rule: if rule `i` matches the URL and
/// no rule before it does, the result is rule `i`'s target.
pub proof fn lemma_evaluate_first_match(rules: Seq<CompiledRuleView>, url: Seq<char>, i: int)
    requires
        0 <= i < rules.len(),
        matcher_accepts(rules[i].matcher, url),
        forall|j: int| 0 <= j < i ==> !matcher_accepts(#[trigger] rules[j].matcher, url),
    ensures
        evaluate(rules, url) == rules[i].browser,
    decreases i,
{
    if i > 0 {
        assert(!matcher_accepts(rules[0].matcher, url));
        let rest = rules.drop_first();
        assert forall|j: int| 0 <= j < i - 1 implies !matcher_accepts(
            #[trigger] rest[j].matcher,
            url,
        ) by {
            assert(rest[j] == rules[j + 1]);
        }
        lemma_evaluate_first_match(rest, url, i - 1);
    }
}

/// When no rule matches the URL, evaluation gives the empty string.
pub proof fn lemma_evaluate_no_match(rules: Seq<CompiledRuleView>, url: Seq<char>)
    requires
        forall|j: int| 0 <= j < rules.len() ==> !matcher_accepts(#[trigger] rules[j].matcher, url),
    ensures
        evaluate(rules, url) == Seq::<char>::empty(),
    decreases rules.len(),
{
    if rules.len() > 0 {
        let rest = rules.drop_first();
        assert forall|j: int| 0 <= j < rest.len() implies !matcher_accepts(
            #[trigger] rest[j].matcher,
            url,
        ) by {
            assert(rest[j] == rules[j + 1]);
        }
        lemma_evaluate_no_match(rest, url);
    }
}

/// A `FINAL` rule always compiles, whatever its pattern, and its matcher
/// matches every URL.
pub proof fn lemma_final_matches_every_url(rule: RuleView, url: Seq<char>)
    requires
        rule.matcher == "FINAL"@,
    ensures
        compile_spec(rule) is Ok,
        matcher_accepts(compile_spec(rule)->Ok_0.matcher, url),
{
    reveal_strlit("FINAL");
    reveal_strlit("WILDCARD");
    reveal_strlit("REGEX");
    reveal_strlit("DOMAIN-WILDCARD");
    reveal_strlit("DOMAIN");
    reveal_strlit("DOMAIN-SUFFIX");
    reveal_strlit("*");
    assert(rule.matcher[0] != "WILDCARD"@[0]);
    assert(rule.matcher[0] != "REGEX"@[0]);
    assert(rule.matcher[0] != "DOMAIN-WILDCARD"@[0]);
    assert(rule.matcher[0] != "DOMAIN"@[0]);
    assert(rule.matcher[0] != "DOMAIN-SUFFIX"@[0]);
    assert("*"@ =~= seq!['*']);
    lemma_star_matches_all(url);
}

/// A `DOMAIN-WILDCARD` rule for pattern `p` always compiles, and matches a
/// URL exactly when `http://<p>/<rest>` or `https://<p>/<rest>` spells it,
/// with `p` read as a glob.
pub proof fn lemma_domain_wildcard_schemes(rule: RuleView, url: Seq<char>)
    requires
        rule.matcher == "DOMAIN-WILDCARD"@,
    ensures
        compile_spec(rule) is Ok,
        matcher_accepts(compile_spec(rule)->Ok_0.matcher, url) == (glob_matches(
            "http://"@ + rule.pattern + "/*"@,
            url,
        ) || glob_matches("https://"@ + rule.pattern + "/*"@, url)),
{
    reveal_strlit("WILDCARD");
    reveal_strlit("REGEX");
    reveal_strlit("DOMAIN-WILDCARD");
    assert(rule.matcher[0] != "WILDCARD"@[0]);
    assert(rule.matcher[0] != "REGEX"@[0]);
}

/// Compiling the same rule twice gives matchers that agree on every URL.
pub proof fn lemma_compile_deterministic(
    rule: RuleView,
    first: CompiledRuleView,
    second: CompiledRuleView,
    url: Seq<char>,
)
    requires
        compile_spec(rule) == Ok::<CompiledRuleView, RuleErrorView>(first),
        compile_spec(rule) == Ok::<CompiledRuleView, RuleErrorView>(second),
    ensures
        first.matcher == second.matcher,
        matcher_accepts(first.matcher, url) == matcher_accepts(second.matcher, url),
{
}

/// Compiling a list fails with the error of its first rule that does not
/// compile, and with no compiled rules at all.
pub proof fn lemma_compile_all_first_error(rules: Seq<RuleView>, k: int)
    requires
        0 <= k < rules.len(),
        compile_spec(rules[k]) is Err,
        forall|j: int| 0 <= j < k ==> #[trigger] compile_spec(rules[j]) is Ok,
    ensures
        compile_all(rules) == Err::<Seq<CompiledRuleView>, RuleErrorView>(
            compile_spec(rules[k])->Err_0,
        ),
    decreases k,
{
    if k > 0 {
        let rest = rules.drop_first();
        assert(compile_spec(rules[0]) is Ok);
        assert forall|j: int| 0 <= j < k - 1 implies #[trigger] compile_spec(rest[j]) is Ok by {
            assert(rest[j] == rules[j + 1]);
        }
        lemma_compile_all_first_error(rest, k - 1);
    }
}

impl Rule {
    pub fn new(matcher: &str, pattern: &str, browser: &str) -> (r: Rule)
        ensures
            r@ == (RuleView { matcher: matcher@, pattern: pattern@, browser: browser@ }),
    {
        Rule {
            matcher: String::from_str(matcher),
            pattern: String::from_str(pattern),
            browser: String::from_str(browser),
        }
    }

    /// A copy of the rule, field by field.
    fn duplicate(&self) -> (r: Rule)
        ensures
            r@ == self@,
    {
        Rule {
            matcher: self.matcher.clone(),
            pattern: self.pattern.clone(),
            browser: self.browser.clone(),
        }
    }
}

impl MatcherKind {
    /// The kind that a matcher keyword names, if any.
    pub fn parse(keyword: &str) -> (r: Option<MatcherKind>)
        ensures
            r == matcher_kind(keyword@),
    {
        let k = String::from_str(keyword);
        if k == String::from_str("WILDCARD") {
            Some(MatcherKind::Wildcard)
        } else if k == String::from_str("REGEX") {
            Some(MatcherKind::Regex)
        } else if k == String::from_str("DOMAIN-WILDCARD") {
            Some(MatcherKind::DomainWildcard)
        } else if k == String::from_str("DOMAIN") {
            Some(MatcherKind::Domain)
        } else if k == String::from_str("DOMAIN-SUFFIX") {
            Some(MatcherKind::DomainSuffix)
        } else if k == String::from_str("FINAL") {
            Some(MatcherKind::Final)
        } else {
            None
        }
    }
}

impl CompiledMatcher {
    /// Whether the matcher matches the URL.
    pub fn matches(&self, uri: &str) -> (r: bool)
        ensures
            r == matcher_accepts(self@, uri@),
    {
        match self {
            CompiledMatcher::Wildcard(p) => wildcard_matches(p.as_str(), uri),
            CompiledMatcher::EitherWildcard(p, q) => wildcard_matches(p.as_str(), uri)
                || wildcard_matches(q.as_str(), uri),
            CompiledMatcher::Regex(p) => regex_is_match(p.as_str(), uri),
        }
    }
}

/// `p` followed by `q` followed by `r`.
fn joined(p: &str, q: &str, r: &str) -> (s: String)
    ensures
        s@ == p@ + q@ + r@,
{
    let mut s = String::from_str(p);
    s.append(q);
    s.append(r);
    s
}

/// Builds the pattern that a rule of the given kind stands for.
fn build_matcher(kind: MatcherKind, pattern: &str) -> (m: CompiledMatcher)
    ensures
        m@ == compiled_matcher(kind, pattern@),
{
    proof {
        reveal_strlit(".");
    }
    match kind {
        MatcherKind::Wildcard => CompiledMatcher::Wildcard(String::from_str(pattern)),
        MatcherKind::Regex => CompiledMatcher::Regex(String::from_str(pattern)),
        MatcherKind::DomainWildcard => CompiledMatcher::EitherWildcard(
            joined("http://", pattern, "/*"),
            joined("https://", pattern, "/*"),
        ),
        MatcherKind::Domain => {
            let domain = replace_all(pattern, ".", "\\.");
            CompiledMatcher::Regex(joined("^http[s]?://", domain.as_str(), "/.*"))
        },
        MatcherKind::DomainSuffix => {
            let domain = replace_all(pattern, ".", "\\.");
            CompiledMatcher::Regex(joined("^http[s]?://(.+\\.)?", domain.as_str(), "/.*"))
        },
        MatcherKind::Final => CompiledMatcher::Wildcard(String::from_str("*")),
    }
}

/// Compiles one rule.
pub fn compile_rule(rule: &Rule) -> (r: Result<CompiledRule, RuleError>)
    ensures
        compiled_result_view(r) == compile_spec(rule@),
{
    let kind = match MatcherKind::parse(rule.matcher.as_str()) {
        Some(kind) => kind,
        None => {
            return Err(RuleError::UnknownMatcher(rule.matcher.clone()));
        },
    };
    let matcher = build_matcher(kind, rule.pattern.as_str());
    if let CompiledMatcher::Regex(p) = &matcher {
        if let Err(message) = check_regex(p.as_str()) {
            return Err(RuleError::InvalidPattern { pattern: p.clone(), message });
        }
    }
    Ok(CompiledRule { matcher, browser: rule.browser.clone(), rule: rule.duplicate() })
}

/// Compiles the rules in order, stopping at the first one that fails.
pub fn compile_rules(rules: &Vec<Rule>) -> (r: Result<Vec<CompiledRule>, RuleError>)
    ensures
        compiled_list_view(r) == compile_all(rules_view(rules@)),
{
    let ghost all = rules_view(rules@);
    let mut ret: Vec<CompiledRule> = Vec::new();
    let mut i: usize = 0;
    assert(all.skip(0) =~= all);
    while i < rules.len()
        invariant
            all == rules_view(rules@),
            i <= rules.len(),
            compile_all(all) == match compile_all(all.skip(i as int)) {
                Err(e) => Err(e),
                Ok(cs) => Ok(compiled_view(ret@) + cs),
            },
        decreases rules.len() - i,
    {
        assert(all.skip(i as int).drop_first() =~= all.skip(i + 1));
        assert(all.skip(i as int)[0] == rules@[i as int]@);
        match compile_rule(&rules[i]) {
            Ok(c) => {
                let ghost before = compiled_view(ret@);
                ret.push(c);
                assert(compiled_view(ret@) =~= before + seq![c@]);
                assert forall|cs: Seq<CompiledRuleView>|
                    (before + (seq![c@] + cs)) =~= (compiled_view(ret@) + cs) by {}
            },
            Err(e) => {
                return Err(e);
            },
        }
        i = i + 1;
    }
    assert(all.skip(i as int) =~= Seq::<RuleView>::empty());
    assert(compiled_view(ret@) + Seq::<CompiledRuleView>::empty() =~= compiled_view(ret@));
    Ok(ret)
}

/// The target of the first rule that matches `uri`; empty when none does.
pub fn match_rules(rules: &Vec<CompiledRule>, uri: &str) -> (r: String)
    ensures
        r@ == evaluate(compiled_view(rules@), uri@),
{
    let ghost all = compiled_view(rules@);
    let mut i: usize = 0;
    assert(all.skip(0) =~= all);
    while i < rules.len()
        invariant
            all == compiled_view(rules@),
            i <= rules.len(),
            evaluate(all, uri@) == evaluate(all.skip(i as int), uri@),
        decreases rules.len() - i,
    {
        let rule = &rules[i];
        assert(all.skip(i as int).drop_first() =~= all.skip(i + 1));
        assert(all.skip(i as int)[0] == rule@);
        if rule.matcher.matches(uri) {
            return rule.browser.clone();
        }
        i = i + 1;
    }
    assert(all.skip(i as int) =~= Seq::<CompiledRuleView>::empty());
    String::new()
}

} // verus!
