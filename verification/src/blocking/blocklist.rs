//! The curated list of ad domains and how a queried name is matched against it.
use vstd::prelude::*;

use crate::clock::Timestamp;
use crate::install::version::{current_version, spec_current_version};
use crate::sorted::{insert_sorted, strictly_sorted};
use crate::text::{
    char_views, chars_of, concat, concat3, decimal, ends_with, has_char, contains_char,
    chars_ends_with, not_starting_with, owned, str_eq, string_from_chars, strip_trailing,
    strip_trailing_chars, to_lowercase, trim_chars, trim_ws, trimmed_lines, trimmed_lines_of,
    unicode_lowercase, usize_to_string, views,
};

verus! {

/// A loaded blocklist. `domains` holds every listed domain once, in ascending order.
#[derive(Debug, Clone)]
pub struct BlocklistBundle {
    pub bundle_id: String,
    pub version: String,
    pub domain_count: usize,
    pub source_label: String,
    pub loaded_at: Timestamp,
    pub integrity_state: bool,
    pub domains: Vec<String>,
}

/// Why a blocklist could not be loaded.
#[derive(Debug, Clone, Copy, PartialEq, Eq, Structural)]
pub enum BlocklistError {
    Empty,
}

impl BlocklistError {
    pub fn message(&self) -> (s: &'static str)
        ensures
            s@ == "the bundled ad-domain list is empty"@,
    {
        "the bundled ad-domain list is empty"
    }
}

/// A line of the list that names a domain: not empty and not a `#` comment.
pub open spec fn is_entry(line: Seq<char>) -> bool {
    line.len() > 0 && not_starting_with(line, '#')
}

pub open spec fn entry_lines() -> spec_fn(Seq<char>) -> bool {
    |l: Seq<char>| is_entry(l)
}

/// A listed domain as it is kept: without trailing dots, lowercased.
pub open spec fn entry_domain(line: Seq<char>) -> Seq<char> {
    unicode_lowercase(strip_trailing(line, '.'))
}

/// The domains that the text of a list names, in order and with repetitions: every trimmed
/// line that is an entry, without trailing dots, lowercased.
pub open spec fn listed_domains(raw: Seq<char>) -> Seq<Seq<char>> {
    trimmed_lines(raw).filter(entry_lines()).map_values(|l: Seq<char>| entry_domain(l))
}

/// The version of a bundle of `count` domains: the package version, `-`, the count.
pub open spec fn bundle_version(count: nat) -> Seq<char> {
    spec_current_version() + "-"@ + decimal(count)
}

/// What a queried name is compared as: trimmed, without trailing dots, lowercased.
pub open spec fn query_name(domain: Seq<char>) -> Seq<char> {
    unicode_lowercase(strip_trailing(trim_ws(domain), '.'))
}

/// `name` is `entry` or a subdomain of it.
pub open spec fn covers(entry: Seq<char>, name: Seq<char>) -> bool {
    name == entry || ends_with(name, seq!['.'] + entry)
}

/// A name is blocked when the list holds it, or when it has a dot and is a listed domain or
/// a subdomain of one.
pub open spec fn spec_matches(domains: Seq<Seq<char>>, domain: Seq<char>) -> bool {
    let n = query_name(domain);
    domains.contains(n) || (has_char(n, '.') && exists|i: int| 0 <= i < domains.len() && covers(#[trigger] domains[i], n))
}

/// The name a query is checked as ends with a listed domain behind a dot, or is that domain.
pub open spec fn under_listed(domains: Seq<Seq<char>>, name: Seq<char>, i: int) -> bool {
    0 <= i < domains.len() && (query_name(name) == domains[i] || ends_with(query_name(name), seq!['.'] + domains[i]))
}

/// A name is blocked exactly when it is a listed domain or a subdomain of one at any depth:
/// when its checked form (trimmed, without trailing dots, lowercased) equals a listed domain,
/// or ends with a dot followed by one, however many labels come before that dot.
pub proof fn lemma_blocks_listed_domains_and_all_subdomains(domains: Seq<Seq<char>>, name: Seq<char>)
    ensures
        spec_matches(domains, name) <==> exists|i: int| #[trigger] under_listed(domains, name, i),
{
    let n = query_name(name);
    if exists|i: int| #[trigger] under_listed(domains, name, i) {
        let i = choose|i: int| #[trigger] under_listed(domains, name, i);
        if n == domains[i] {
            assert(domains.contains(n));
        } else {
            let e = domains[i];
            let p = seq!['.'] + e;
            let k = n.len() - p.len();
            assert(n.subrange(k, n.len() as int)[0] == '.');
            assert(n[k] == '.');
            assert(has_char(n, '.'));
            assert(covers(domains[i], n));
        }
    }
    if spec_matches(domains, name) {
        if domains.contains(n) {
            let i = choose|i: int| 0 <= i < domains.len() && domains[i] == n;
            assert(under_listed(domains, name, i));
        } else {
            let i = choose|i: int| 0 <= i < domains.len() && #[trigger] covers(domains[i], n);
            assert(under_listed(domains, name, i));
        }
    }
}

impl BlocklistBundle {
    /// Reads the text of a list: one domain per line, `#` comments and blank lines skipped.
    /// Refuses a list that names no domain. A list of at least 50 domains passes the
    /// integrity check.
    pub fn parse(raw: &str, loaded_at: Timestamp, source_label: String) -> (r: Result<BlocklistBundle, BlocklistError>)
        ensures
            listed_domains(raw@).len() == 0 <==> r is Err,
            r is Err ==> r == Err::<BlocklistBundle, BlocklistError>(BlocklistError::Empty),
            r matches Ok(b) ==> {
                &&& strictly_sorted(views(b.domains@))
                &&& views(b.domains@).to_set() == listed_domains(raw@).to_set()
                &&& b.domain_count == b.domains@.len()
                &&& b.version@ == bundle_version(b.domain_count as nat)
                &&& b.bundle_id@ == "sentinel-default-domains"@
                &&& b.source_label@ == source_label@
                &&& b.loaded_at == loaded_at
                &&& b.integrity_state == (b.domain_count >= 50)
            },
    {
        let lines = trimmed_lines_of(raw);
        let ghost all = char_views(lines@);
        let mut domains: Vec<String> = Vec::new();
        let mut i: usize = 0;
        proof {
            reveal(Seq::filter);
            assert(all.take(0) =~= Seq::<Seq<char>>::empty());
            assert(views(domains@).to_set() =~= Set::<Seq<char>>::empty());
        }
        while i < lines.len()
            invariant
                all == char_views(lines@),
                all == trimmed_lines(raw@),
                i <= lines.len(),
                strictly_sorted(views(domains@)),
                views(domains@).to_set() == all.take(i as int).filter(entry_lines()).map_values(|l: Seq<char>| entry_domain(l)).to_set(),
            decreases lines.len() - i,
        {
            let line = &lines[i];
            let ghost before = all.take(i as int).filter(entry_lines());
            proof {
                assert(all.take(i + 1).drop_last() =~= all.take(i as int));
                assert(all.take(i + 1).last() == line@);
                reveal(Seq::filter);
            }
            if line.len() > 0 && line[0] != '#' {
                let stripped = strip_trailing_chars(line, '.');
                let text = string_from_chars(&stripped);
                let lowered = to_lowercase(text.as_str());
                insert_sorted(&mut domains, lowered);
                proof {
                    let after = all.take(i + 1).filter(entry_lines());
                    assert(after == before.push(line@));
                    let f = |l: Seq<char>| entry_domain(l);
                    assert(after.map_values(f) =~= before.map_values(f).push(entry_domain(line@)));
                    crate::sorted::lemma_push_to_set(before.map_values(f), entry_domain(line@));
                }
            }
            i += 1;
        }
        proof {
            assert(all.take(lines.len() as int) =~= all);
        }
        let n = domains.len();
        if n == 0 {
            proof {
                if listed_domains(raw@).len() > 0 {
                    assert(listed_domains(raw@).to_set().contains(listed_domains(raw@)[0]));
                }
            }
            return Err(BlocklistError::Empty);
        }
        proof {
            assert(views(domains@).to_set().contains(views(domains@)[0]));
            if listed_domains(raw@).len() == 0 {
                assert(listed_domains(raw@).to_set() =~= Set::<Seq<char>>::empty());
            }
        }
        let count_text = usize_to_string(n);
        let version = concat3(current_version(), "-", count_text.as_str());
        Ok(BlocklistBundle {
            bundle_id: owned("sentinel-default-domains"),
            version,
            domain_count: n,
            source_label,
            loaded_at,
            integrity_state: n >= 50,
            domains,
        })
    }

    /// Whether the list blocks `domain`: the name, trimmed, without trailing dots and
    /// lowercased, is listed, or (when it has a dot) is a subdomain of a listed domain.
    pub fn matches(&self, domain: &str) -> (b: bool)
        ensures
            b == spec_matches(views(self.domains@), domain@),
            b <==> exists|i: int| #[trigger] under_listed(views(self.domains@), domain@, i),
    {
        proof {
            lemma_blocks_listed_domains_and_all_subdomains(views(self.domains@), domain@);
        }
        let raw = chars_of(domain);
        let trimmed = trim_chars(&raw);
        let stripped = strip_trailing_chars(&trimmed, '.');
        let text = string_from_chars(&stripped);
        let normalized = to_lowercase(text.as_str());
        let ghost ds = views(self.domains@);
        let n = self.domains.len();
        let mut i: usize = 0;
        while i < n
            invariant
                n == self.domains.len(),
                ds == views(self.domains@),
                normalized@ == query_name(domain@),
                i <= n,
                forall|k: int| 0 <= k < i ==> ds[k] != normalized@,
            decreases n - i,
        {
            if str_eq(self.domains[i].as_str(), normalized.as_str()) {
                assert(ds[i as int] == normalized@);
                assert(ds.contains(normalized@));
                proof {
                    lemma_blocks_listed_domains_and_all_subdomains(ds, domain@);
                }
                return true;
            }
            i += 1;
        }
        let nchars = chars_of(normalized.as_str());
        if !contains_char(&nchars, '.') {
            return false;
        }
        let mut j: usize = 0;
        while j < n
            invariant
                n == self.domains.len(),
                ds == views(self.domains@),
                nchars@ == normalized@,
                normalized@ == query_name(domain@),
                has_char(normalized@, '.'),
                j <= n,
                forall|k: int| 0 <= k < j ==> !covers(#[trigger] ds[k], normalized@),
            decreases n - j,
        {
            let entry = &self.domains[j];
            let suffix = concat(".", entry.as_str());
            let suffix_chars = chars_of(suffix.as_str());
            proof {
                reveal_strlit(".");
                assert(suffix@ =~= seq!['.'] + ds[j as int]);
            }
            if str_eq(entry.as_str(), normalized.as_str()) || chars_ends_with(&nchars, &suffix_chars) {
                assert(covers(ds[j as int], normalized@));
                proof {
                    lemma_blocks_listed_domains_and_all_subdomains(ds, domain@);
                }
                return true;
            }
            j += 1;
        }
        false
    }
}

} // verus!
