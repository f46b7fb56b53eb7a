//! Block and allow rules over domain names, and the decision whether to block a name.
use vstd::prelude::*;

use crate::app::{normalize_domain, spec_normalize_domain, DomainError};
use crate::clock::{utc_now, Timestamp};
use crate::text::{chars_ends_with, chars_of, concat, ends_with, owned, str_eq};

verus! {

/// Whether a rule blocks or allows.
#[derive(Debug, Clone, Copy, PartialEq, Eq, Structural)]
pub enum RuleKind {
    Block,
    Allow,
}

impl RuleKind {
    pub open spec fn spec_as_str(self) -> Seq<char> {
        match self {
            RuleKind::Block => "block"@,
            RuleKind::Allow => "allow"@,
        }
    }

    /// The snake-case name of the kind.
    pub fn as_str(&self) -> (s: &'static str)
        ensures
            s@ == self.spec_as_str(),
    {
        match self {
            RuleKind::Block => "block",
            RuleKind::Allow => "allow",
        }
    }
}

/// Whether a rule matches one name exactly or a name and all its subdomains.
#[derive(Debug, Clone, Copy, PartialEq, Eq, Structural)]
pub enum MatchType {
    Domain,
    Suffix,
}

impl MatchType {
    pub open spec fn spec_as_str(self) -> Seq<char> {
        match self {
            MatchType::Domain => "domain"@,
            MatchType::Suffix => "suffix"@,
        }
    }

    /// The snake-case name of the match type.
    pub fn as_str(&self) -> (s: &'static str)
        ensures
            s@ == self.spec_as_str(),
    {
        match self {
            MatchType::Domain => "domain",
            MatchType::Suffix => "suffix",
        }
    }
}

/// Where a rule comes from.
#[derive(Debug, Clone, Copy, PartialEq, Eq, Structural)]
pub enum RuleSource {
    BuiltIn,
    User,
}

impl RuleSource {
    pub open spec fn spec_as_str(self) -> Seq<char> {
        match self {
            RuleSource::BuiltIn => "built_in"@,
            RuleSource::User => "user"@,
        }
    }

    /// The snake-case name of the source.
    pub fn as_str(&self) -> (s: &'static str)
        ensures
            s@ == self.spec_as_str(),
    {
        match self {
            RuleSource::BuiltIn => "built_in",
            RuleSource::User => "user",
        }
    }
}

/// One rule.
#[derive(Debug, Clone)]
pub struct RuleEntry {
    pub id: String,
    pub kind: RuleKind,
    pub match_type: MatchType,
    pub value: String,
    pub source: RuleSource,
    pub enabled: bool,
    pub created_at: Timestamp,
    pub updated_at: Timestamp,
}

/// A rule with `value` matches `domain`: the same name, or for a suffix rule also any
/// name ending in `.` followed by the value.
pub open spec fn rule_matches(match_type: MatchType, value: Seq<char>, domain: Seq<char>) -> bool {
    match match_type {
        MatchType::Domain => domain == value,
        MatchType::Suffix => domain == value || ends_with(domain, "."@ + value),
    }
}

/// Some enabled rule of `rules` matches `domain`.
pub open spec fn any_enabled_match(rules: Seq<RuleEntry>, domain: Seq<char>) -> bool {
    exists|i: int|
        0 <= i < rules.len() && (#[trigger] rules[i]).enabled && rule_matches(
            rules[i].match_type,
            rules[i].value@,
            domain,
        )
}

/// An enabled allow rule overrides every block rule; otherwise an enabled built-in rule blocks.
pub open spec fn spec_should_block(domain: Seq<char>, built_in: Seq<RuleEntry>, allow_rules: Seq<RuleEntry>) -> bool {
    !any_enabled_match(allow_rules, domain) && any_enabled_match(built_in, domain)
}

/// The domains blocked out of the box.
pub open spec fn built_in_domains() -> Seq<Seq<char>> {
    seq![
        "doubleclick.net"@,
        "googlesyndication.com"@,
        "googleadservices.com"@,
        "ads-twitter.com"@,
        "adservice.google.com"@,
        "taboola.com"@,
        "outbrain.com"@,
    ]
}

impl RuleEntry {
    /// A user rule allowing the normalized `domain` and its subdomains, created now; the
    /// domain's refusal when it does not normalize.
    pub fn allow(domain: &str) -> (r: Result<RuleEntry, DomainError>)
        ensures
            match r {
                Ok(rule) => spec_normalize_domain(domain@) == Ok::<Seq<char>, DomainError>(rule.value@)
                    && rule.id@ == "allow-"@ + rule.value@ && rule.kind == RuleKind::Allow
                    && rule.match_type == MatchType::Suffix && rule.source == RuleSource::User
                    && rule.enabled && rule.created_at.wf() && rule.updated_at.wf(),
                Err(e) => spec_normalize_domain(domain@) == Err::<Seq<char>, DomainError>(e),
            },
    {
        let normalized = normalize_domain(domain)?;
        let id = concat("allow-", normalized.as_str());
        let created_at = utc_now();
        let updated_at = utc_now();
        Ok(RuleEntry {
            id,
            kind: RuleKind::Allow,
            match_type: MatchType::Suffix,
            value: normalized,
            source: RuleSource::User,
            enabled: true,
            created_at,
            updated_at,
        })
    }

    /// Whether this rule's value covers `domain` (enabled or not).
    pub fn blocks(&self, domain: &str) -> (b: bool)
        ensures
            b == rule_matches(self.match_type, self.value@, domain@),
    {
        let exact = str_eq(self.value.as_str(), domain);
        match self.match_type {
            MatchType::Domain => exact,
            MatchType::Suffix => {
                if exact {
                    true
                } else {
                    let d = chars_of(domain);
                    let dotted = concat(".", self.value.as_str());
                    let suffix = chars_of(dotted.as_str());
                    chars_ends_with(&d, &suffix)
                }
            },
        }
    }

    /// A copy of this rule.
    pub fn duplicate(&self) -> (r: RuleEntry)
        ensures
            r.id == self.id,
            r.kind == self.kind,
            r.match_type == self.match_type,
            r.value == self.value,
            r.source == self.source,
            r.enabled == self.enabled,
            r.created_at == self.created_at,
            r.updated_at == self.updated_at,
    {
        RuleEntry {
            id: self.id.clone(),
            kind: self.kind,
            match_type: self.match_type,
            value: self.value.clone(),
            source: self.source,
            enabled: self.enabled,
            created_at: self.created_at,
            updated_at: self.updated_at,
        }
    }
}

/// The built-in suffix rules, one per built-in domain, all enabled and created now.
pub fn built_in_rules() -> (rules: Vec<RuleEntry>)
    ensures
        rules@.len() == built_in_domains().len(),
        forall|i: int|
            0 <= i < rules@.len() ==> {
                &&& (#[trigger] rules@[i]).value@ == built_in_domains()[i]
                &&& rules@[i].id@ == "block-"@ + built_in_domains()[i]
                &&& rules@[i].kind == RuleKind::Block
                &&& rules@[i].match_type == MatchType::Suffix
                &&& rules@[i].source == RuleSource::BuiltIn
                &&& rules@[i].enabled
                &&& rules@[i].created_at == rules@[0].created_at
                &&& rules@[i].updated_at == rules@[0].created_at
                &&& rules@[i].created_at.wf()
            },
{
    let now = utc_now();
    let names = vec![
        "doubleclick.net",
        "googlesyndication.com",
        "googleadservices.com",
        "ads-twitter.com",
        "adservice.google.com",
        "taboola.com",
        "outbrain.com",
    ];
    let ghost expected = built_in_domains();
    assert(names@.map_values(|s: &str| s@) =~= expected);
    let mut rules: Vec<RuleEntry> = Vec::new();
    for i in 0..names.len()
        invariant
            names@.len() == 7,
            expected == built_in_domains(),
            names@.map_values(|s: &str| s@) == expected,
            now.wf(),
            rules@.len() == i,
            forall|k: int|
                0 <= k < i ==> {
                    &&& (#[trigger] rules@[k]).value@ == expected[k]
                    &&& rules@[k].id@ == "block-"@ + expected[k]
                    &&& rules@[k].kind == RuleKind::Block
                    &&& rules@[k].match_type == MatchType::Suffix
                    &&& rules@[k].source == RuleSource::BuiltIn
                    &&& rules@[k].enabled
                    &&& rules@[k].created_at == now
                    &&& rules@[k].updated_at == now
                },
    {
        let name = names[i];
        assert(name@ == names@.map_values(|s: &str| s@)[i as int]);
        rules.push(RuleEntry {
            id: concat("block-", name),
            kind: RuleKind::Block,
            match_type: MatchType::Suffix,
            value: owned(name),
            source: RuleSource::BuiltIn,
            enabled: true,
            created_at: now,
            updated_at: now,
        });
    }
    rules
}

fn any_enabled_match_exec(rules: &[RuleEntry], domain: &str) -> (b: bool)
    ensures
        b == any_enabled_match(rules@, domain@),
{
    for i in 0..rules.len()
        invariant
            forall|k: int|
                0 <= k < i ==> !((#[trigger] rules@[k]).enabled && rule_matches(
                    rules@[k].match_type,
                    rules@[k].value@,
                    domain@,
                )),
    {
        if rules[i].enabled && rules[i].blocks(domain) {
            return true;
        }
    }
    false
}

/// Blocks `domain` when no enabled allow rule covers it and an enabled built-in rule does.
pub fn should_block(domain: &str, built_in: &[RuleEntry], allow_rules: &[RuleEntry]) -> (b: bool)
    ensures
        b == spec_should_block(domain@, built_in@, allow_rules@),
{
    if any_enabled_match_exec(allow_rules, domain) {
        return false;
    }
    any_enabled_match_exec(built_in, domain)
}

/// An enabled allow rule that covers a domain keeps it unblocked, whatever the block rules say.
pub proof fn lemma_allow_overrides_block(domain: Seq<char>, built_in: Seq<RuleEntry>, allow_rules: Seq<RuleEntry>, i: int)
    requires
        0 <= i < allow_rules.len(),
        allow_rules[i].enabled,
        rule_matches(allow_rules[i].match_type, allow_rules[i].value@, domain),
    ensures
        !spec_should_block(domain, built_in, allow_rules),
{
}

} // verus!
