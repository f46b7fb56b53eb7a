//! The user's configuration: the allow rules.
use vstd::prelude::*;

use crate::app::{spec_normalize_domain, AppPaths, DomainError};
use crate::policy::rules::{MatchType, RuleEntry, RuleKind, RuleSource};
use crate::text::str_eq;

verus! {

/// The persisted configuration.
#[derive(Debug, Clone)]
pub struct AppConfig {
    pub allow_rules: Vec<RuleEntry>,
}

/// Some rule of `rules` has exactly `value`.
pub open spec fn has_value(rules: Seq<RuleEntry>, value: Seq<char>) -> bool {
    exists|i: int| 0 <= i < rules.len() && (#[trigger] rules[i]).value@ == value
}

/// The rules of `rules` whose value is not `value`, in order.
pub open spec fn without_value(rules: Seq<RuleEntry>, value: Seq<char>) -> Seq<RuleEntry> {
    rules.filter(|r: RuleEntry| r.value@ != value)
}

impl AppConfig {
    /// No allow rules.
    pub fn empty() -> (c: AppConfig)
        ensures
            c.allow_rules@.len() == 0,
    {
        AppConfig { allow_rules: Vec::new() }
    }

    /// Adds an allow rule for `domain` unless a rule already has exactly that value or the
    /// domain does not normalize; says whether one was added.
    pub fn add_allow_rule(&mut self, domain: String) -> (added: bool)
        ensures
            has_value(old(self).allow_rules@, domain@) ==> !added && final(self).allow_rules@
                == old(self).allow_rules@,
            !has_value(old(self).allow_rules@, domain@) ==> match spec_normalize_domain(domain@) {
                Ok(d) => added && final(self).allow_rules@.len() == old(self).allow_rules@.len() + 1
                    && final(self).allow_rules@.drop_last() == old(self).allow_rules@
                    && final(self).allow_rules@.last().value@ == d
                    && final(self).allow_rules@.last().id@ == "allow-"@ + d
                    && final(self).allow_rules@.last().kind == RuleKind::Allow
                    && final(self).allow_rules@.last().match_type == MatchType::Suffix
                    && final(self).allow_rules@.last().source == RuleSource::User
                    && final(self).allow_rules@.last().enabled,
                Err(_) => !added && final(self).allow_rules@ == old(self).allow_rules@,
            },
    {
        let mut i: usize = 0;
        while i < self.allow_rules.len()
            invariant
                i <= self.allow_rules@.len(),
                self.allow_rules@ == old(self).allow_rules@,
                forall|k: int| 0 <= k < i ==> (#[trigger] self.allow_rules@[k]).value@ != domain@,
            decreases self.allow_rules@.len() - i,
        {
            if str_eq(self.allow_rules[i].value.as_str(), domain.as_str()) {
                return false;
            }
            i += 1;
        }
        match RuleEntry::allow(domain.as_str()) {
            Ok(rule) => {
                self.allow_rules.push(rule);
                assert(self.allow_rules@.drop_last() =~= old(self).allow_rules@);
                true
            },
            Err(_) => false,
        }
    }

    /// Removes every rule whose value is exactly `domain`; says whether one was removed.
    pub fn remove_allow_rule(&mut self, domain: &str) -> (removed: bool)
        ensures
            final(self).allow_rules@ == without_value(old(self).allow_rules@, domain@),
            removed == has_value(old(self).allow_rules@, domain@),
    {
        let ghost pred = |r: RuleEntry| r.value@ != domain@;
        let mut old_rules: Vec<RuleEntry> = Vec::new();
        std::mem::swap(&mut old_rules, &mut self.allow_rules);
        let mut kept: Vec<RuleEntry> = Vec::new();
        let mut removed = false;
        let n = old_rules.len();
        for i in 0..n
            invariant
                n == old_rules@.len(),
                old_rules@ == old(self).allow_rules@,
                pred == (|r: RuleEntry| r.value@ != domain@),
                kept@ == old_rules@.take(i as int).filter(pred),
                removed == has_value(old_rules@.take(i as int), domain@),
        {
            let ghost prev = kept@;
            let keep = !str_eq(old_rules[i].value.as_str(), domain);
            proof {
                let t = old_rules@.take(i + 1);
                assert(t.drop_last() =~= old_rules@.take(i as int));
                reveal_with_fuel(Seq::filter, 1);
                assert(t.last() == old_rules@[i as int]);
                if !keep {
                    assert(t[i as int] == old_rules@[i as int]);
                }
                if has_value(old_rules@.take(i as int), domain@) {
                    let k = choose|k: int| 0 <= k < i && (#[trigger] old_rules@.take(i as int)[k]).value@ == domain@;
                    assert(t[k] == old_rules@.take(i as int)[k]);
                }
                if has_value(t, domain@) {
                    let k = choose|k: int| 0 <= k < t.len() && (#[trigger] t[k]).value@ == domain@;
                    if k < i {
                        assert(old_rules@.take(i as int)[k] == t[k]);
                    }
                }
            }
            if keep {
                let dup = old_rules[i].duplicate();
                assert(dup == old_rules@[i as int]);
                kept.push(dup);
            } else {
                removed = true;
            }
            proof {
                let t = old_rules@.take(i + 1);
                reveal_with_fuel(Seq::filter, 1);
                assert(t.filter(pred) == t.drop_last().filter(pred) + (if pred(t.last()) {
                    seq![t.last()]
                } else {
                    Seq::<RuleEntry>::empty()
                })) by {
                    reveal_with_fuel(Seq::filter, 1);
                    assert(t.drop_last() =~= old_rules@.take(i as int));
                }
                assert(t.last() == old_rules@[i as int]);
                assert(pred(t.last()) == (t.last().value@ != domain@));
                assert(old_rules@[i as int].value@ == old_rules[i as int].value@);
                assert(pred(t.last()) == keep);
                assert(t.drop_last().filter(pred) == prev);
                assert(kept@ =~= t.filter(pred));
            }
        }
        assert(old_rules@.take(n as int) =~= old_rules@);
        self.allow_rules = kept;
        removed
    }

    /// A copy of the user's allow rules.
    pub fn user_rules(&self) -> (r: Vec<RuleEntry>)
        ensures
            r@.len() == self.allow_rules@.len(),
            forall|i: int| 0 <= i < r@.len() ==> #[trigger] r@[i] == self.allow_rules@[i],
    {
        let mut r: Vec<RuleEntry> = Vec::new();
        for i in 0..self.allow_rules.len()
            invariant
                r@.len() == i,
                forall|k: int| 0 <= k < i ==> #[trigger] r@[k] == self.allow_rules@[k],
        {
            r.push(self.allow_rules[i].duplicate());
        }
        r
    }
}

/// Removing `value` from rules that do not have it leaves them as they are.
proof fn lemma_without_absent(rules: Seq<RuleEntry>, value: Seq<char>)
    requires
        !has_value(rules, value),
    ensures
        without_value(rules, value) == rules,
    decreases rules.len(),
{
    reveal_with_fuel(Seq::filter, 1);
    if rules.len() > 0 {
        assert forall|i: int| 0 <= i < rules.drop_last().len() implies (#[trigger] rules.drop_last()[i]).value@ != value by {
            assert(rules.drop_last()[i] == rules[i]);
        }
        lemma_without_absent(rules.drop_last(), value);
        assert(rules.last() == rules[rules.len() - 1]);
        assert(rules.drop_last().push(rules.last()) =~= rules);
    } else {
        assert(rules.filter(|r: RuleEntry| r.value@ != value) =~= rules);
    }
}

/// Allowing a domain that no rule has yet, then removing it, gives back the rules as they were.
/// `added` is what `add_allow_rule` leaves: the rules with one more at the end, whose value is
/// the normalized domain; so this holds whenever the domain is already in normal form.
pub proof fn lemma_allow_then_remove(rules: Seq<RuleEntry>, added: Seq<RuleEntry>, domain: Seq<char>)
    requires
        !has_value(rules, domain),
        added.len() == rules.len() + 1,
        added.drop_last() == rules,
        added.last().value@ == domain,
    ensures
        without_value(added, domain) == rules,
{
    reveal_with_fuel(Seq::filter, 1);
    lemma_without_absent(rules, domain);
    assert(without_value(added.drop_last(), domain) == rules);
}

/// Reads and writes the configuration file under the application's paths.
pub struct ConfigStore {
    pub paths: AppPaths,
}

impl ConfigStore {
    pub fn new(paths: AppPaths) -> (r: ConfigStore)
        ensures
            r.paths == paths,
    {
        ConfigStore { paths }
    }
}

} // verus!
