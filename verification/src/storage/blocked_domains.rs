//! The editable catalogue of blocked domains, kept one per line in the blocklist file.
//! Reading and writing the file is the caller's; here is what is read from it and what is
//! written to it.
use vstd::prelude::*;

use crate::app::{first_label_error, label_error, normalize_domain, spec_normalize_domain, DomainError, domain_candidate};
use crate::blocking::blocklist::entry_lines;
use crate::sorted::{sorted_distinct, strictly_sorted};
use crate::text::{
    char_views, concat, is_ws, join, join_strings, lines, not_starting_with, split, split_from, str_eq, string_from_chars,
    terminated, trim_ws, trimmed_lines, trimmed_lines_of, views,
};
use crate::blocking::blocklist::is_entry;

verus! {

/// The catalogue of blocked domains stored at `path`.
#[derive(Debug, Clone)]
pub struct BlockedDomainsStore {
    pub path: String,
}

/// Why a change to the catalogue was refused.
#[derive(Debug, Clone, Copy, PartialEq, Eq, Structural)]
pub enum CatalogError {
    InvalidDomain(DomainError),
    AlreadyListed,
    EditTargetMissing,
    EditWouldDuplicate,
    RemoveTargetMissing,
}

impl CatalogError {
    pub open spec fn spec_message(&self) -> Seq<char> {
        match self {
            CatalogError::InvalidDomain(e) => e.spec_message(),
            CatalogError::AlreadyListed => "ese dominio ya existe en el catalogo activo"@,
            CatalogError::EditTargetMissing => "no se encontro el dominio seleccionado para editar"@,
            CatalogError::EditWouldDuplicate => "el dominio editado duplicaria una entrada existente"@,
            CatalogError::RemoveTargetMissing => "no se encontro el dominio seleccionado para eliminar"@,
        }
    }

    /// The message shown to the user.
    pub fn message(&self) -> (s: &'static str)
        ensures
            s@ == self.spec_message(),
    {
        match self {
            CatalogError::InvalidDomain(e) => e.message(),
            CatalogError::AlreadyListed => "ese dominio ya existe en el catalogo activo",
            CatalogError::EditTargetMissing => "no se encontro el dominio seleccionado para editar",
            CatalogError::EditWouldDuplicate => "el dominio editado duplicaria una entrada existente",
            CatalogError::RemoveTargetMissing => "no se encontro el dominio seleccionado para eliminar",
        }
    }
}

/// Every entry normalized, or the error of the first one, left to right, that is refused.
pub open spec fn normalize_all(entries: Seq<Seq<char>>) -> Result<Seq<Seq<char>>, DomainError>
    decreases entries.len(),
{
    if entries.len() == 0 {
        Ok(Seq::empty())
    } else {
        match spec_normalize_domain(entries[0]) {
            Err(e) => Err(e),
            Ok(d) => match normalize_all(entries.drop_first()) {
                Err(e) => Err(e),
                Ok(rest) => Ok(seq![d] + rest),
            },
        }
    }
}

/// The entry lines of the catalogue file: trimmed, not blank, not `#` comments.
pub open spec fn catalog_entries(contents: Seq<char>) -> Seq<Seq<char>> {
    trimmed_lines(contents).filter(entry_lines())
}

/// A catalogue as kept: distinct normalized domains in std's order.
pub open spec fn is_catalog(s: Seq<Seq<char>>) -> bool {
    &&& strictly_sorted(s)
    &&& forall|i: int| 0 <= i < s.len() ==> spec_normalize_domain(#[trigger] s[i]) == Ok::<Seq<char>, DomainError>(s[i])
}

/// What the file holds for a catalogue: one domain per line, each line ended; nothing for none.
pub open spec fn catalog_body(domains: Seq<Seq<char>>) -> Seq<char> {
    if domains.len() == 0 {
        Seq::empty()
    } else {
        join(domains, "\n"@) + "\n"@
    }
}

/// The catalogue that a list of domains is saved as: each normalized, then sorted without
/// repetitions; `None` carries the first refused domain's error.
pub open spec fn saved_catalog(normalized: Seq<Seq<char>>, kept: Seq<Seq<char>>) -> bool {
    strictly_sorted(kept) && kept.to_set() == normalized.to_set()
}

/// The outcome of saving a list of domains: the catalogue and the text for the file.
pub struct SavedCatalog {
    pub domains: Vec<String>,
    pub body: String,
}

/// Normalizes every entry, stopping at the first refused one.
pub fn normalize_each(entries: &Vec<String>) -> (r: Result<Vec<String>, DomainError>)
    ensures
        match r {
            Ok(v) => normalize_all(views(entries@)) == Ok::<Seq<Seq<char>>, DomainError>(views(v@)),
            Err(e) => normalize_all(views(entries@)) == Err::<Seq<Seq<char>>, DomainError>(e),
        },
{
    let ghost all = views(entries@);
    let mut out: Vec<String> = Vec::new();
    let mut i: usize = 0;
    proof {
        assert(all.subrange(0, all.len() as int) =~= all);
        assert(views(out@) =~= Seq::<Seq<char>>::empty());
    }
    while i < entries.len()
        invariant
            all == views(entries@),
            i <= entries.len(),
            normalize_all(all) == (match normalize_all(all.subrange(i as int, all.len() as int)) {
                Err(e) => Err(e),
                Ok(rest) => Ok::<Seq<Seq<char>>, DomainError>(views(out@) + rest),
            }),
        decreases entries.len() - i,
    {
        let ghost rest = all.subrange(i as int, all.len() as int);
        assert(rest[0] == entries@[i as int]@);
        assert(rest.drop_first() =~= all.subrange(i + 1, all.len() as int));
        match normalize_domain(entries[i].as_str()) {
            Err(e) => {
                return Err(e);
            },
            Ok(d) => {
                let ghost before = views(out@);
                out.push(d);
                proof {
                    assert(views(out@) =~= before.push(d@));
                    match normalize_all(all.subrange(i + 1, all.len() as int)) {
                        Err(e) => {},
                        Ok(r2) => {
                            assert(before + (seq![d@] + r2) =~= before.push(d@) + r2);
                        },
                    }
                }
            },
        }
        i += 1;
    }
    proof {
        assert(all.subrange(i as int, all.len() as int) =~= Seq::<Seq<char>>::empty());
        assert(views(out@) + Seq::<Seq<char>>::empty() =~= views(out@));
    }
    Ok(out)
}

/// `r` is what reading the catalogue file `contents` gives: its entries normalized, sorted
/// without repetitions; the error of the first entry that is not a valid domain otherwise.
pub open spec fn reads_catalog(contents: Seq<char>, r: Result<Seq<Seq<char>>, DomainError>) -> bool {
    match normalize_all(catalog_entries(contents)) {
        Ok(n) => r matches Ok(v) && saved_catalog(n, v),
        Err(e) => r == Err::<Seq<Seq<char>>, DomainError>(e),
    }
}

/// A catalogue result with each domain taken by its text.
pub open spec fn catalog_views(r: Result<Vec<String>, DomainError>) -> Result<Seq<Seq<char>>, DomainError> {
    match r {
        Ok(v) => Ok(views(v@)),
        Err(e) => Err(e),
    }
}

/// What the catalogue file holds: its entries, each normalized, sorted without repetitions;
/// the error of the first entry that is not a valid domain otherwise.
pub fn catalog_from_contents(contents: &str) -> (r: Result<Vec<String>, DomainError>)
    ensures
        reads_catalog(contents@, catalog_views(r)),
{
    let lines = trimmed_lines_of(contents);
    let ghost all = char_views(lines@);
    let mut entries: Vec<String> = Vec::new();
    proof {
        reveal(Seq::filter);
        assert(all.take(0) =~= Seq::<Seq<char>>::empty());
    }
    for i in 0..lines.len()
        invariant
            all == char_views(lines@),
            all == trimmed_lines(contents@),
            views(entries@) == all.take(i as int).filter(entry_lines()),
    {
        let line = &lines[i];
        proof {
            assert(all.take(i + 1).drop_last() =~= all.take(i as int));
            assert(all.take(i + 1).last() == line@);
            reveal(Seq::filter);
        }
        if line.len() > 0 && line[0] != '#' {
            let ghost before = views(entries@);
            entries.push(string_from_chars(line));
            assert(views(entries@) =~= before.push(line@));
        }
    }
    assert(all.take(lines.len() as int) =~= all);
    match normalize_each(&entries) {
        Err(e) => Err(e),
        Ok(normalized) => Ok(sorted_distinct(normalized)),
    }
}

/// The catalogue a list of domains is saved as, and the file text for it.
pub fn save_catalog(domains: &Vec<String>) -> (r: Result<SavedCatalog, DomainError>)
    ensures
        match normalize_all(views(domains@)) {
            Ok(n) => r matches Ok(s) && saved_catalog(n, views(s.domains@)) && s.body@ == catalog_body(views(s.domains@)),
            Err(e) => r matches Err(x) && x == e,
        },
{
    match normalize_each(domains) {
        Err(e) => Err(e),
        Ok(normalized) => {
            let kept = sorted_distinct(normalized);
            let body = if kept.len() == 0 {
                String::new()
            } else {
                let joined = join_strings(kept.as_slice(), "\n");
                concat(joined.as_str(), "\n")
            };
            Ok(SavedCatalog { domains: kept, body })
        },
    }
}

/// The position of `d` in `v`, if it is there.
pub fn position_of(v: &Vec<String>, d: &str) -> (r: Option<usize>)
    ensures
        match r {
            Some(i) => first_at(views(v@), d@, i as int),
            None => !views(v@).contains(d@),
        },
{
    let mut i: usize = 0;
    while i < v.len()
        invariant
            i <= v.len(),
            forall|k: int| 0 <= k < i ==> v@[k]@ != d@,
        decreases v.len() - i,
    {
        if str_eq(v[i].as_str(), d) {
            assert(views(v@)[i as int] == d@);
            return Some(i);
        }
        i += 1;
    }
    proof {
        if views(v@).contains(d@) {
            let k = choose|k: int| 0 <= k < views(v@).len() && views(v@)[k] == d@;
            assert(v@[k]@ == d@);
        }
    }
    None
}

/// `p` is where `x` first occurs in `s`.
pub open spec fn first_at(s: Seq<Seq<char>>, x: Seq<char>, p: int) -> bool {
    &&& 0 <= p < s.len()
    &&& s[p] == x
    &&& forall|k: int| 0 <= k < p ==> s[k] != x
}

/// Where `x` first occurs in `s` (meaningful when it occurs).
pub open spec fn first_position(s: Seq<Seq<char>>, x: Seq<char>) -> int {
    choose|p: int| first_at(s, x, p)
}

/// What adding a domain to `current` saves: `current` with the normalized domain added.
pub open spec fn spec_added(current: Seq<Seq<char>>, d: Seq<char>) -> Seq<Seq<char>> {
    current.push(d)
}

/// What replacing the entry at `pos` with `d` saves.
pub open spec fn spec_updated(current: Seq<Seq<char>>, pos: int, d: Seq<char>) -> Seq<Seq<char>> {
    current.update(pos, d)
}

/// What removing `d` from `current` saves: every other entry, in order.
pub open spec fn spec_removed(current: Seq<Seq<char>>, d: Seq<char>) -> Seq<Seq<char>> {
    current.filter(other_than(d))
}

pub open spec fn other_than(d: Seq<char>) -> spec_fn(Seq<char>) -> bool {
    |e: Seq<char>| e != d
}

impl BlockedDomainsStore {
    pub fn new(path: String) -> (s: BlockedDomainsStore)
        ensures
            s.path == path,
    {
        BlockedDomainsStore { path }
    }

    /// Adds `domain` to the catalogue `current` (as read from the file): the domain is
    /// normalized, refused if listed already, and the catalogue with it is saved.
    pub fn add(&self, current: &Vec<String>, domain: &str) -> (r: Result<SavedCatalog, CatalogError>)
        ensures
            match spec_normalize_domain(domain@) {
                Err(e) => r matches Err(x) && x == CatalogError::InvalidDomain(e),
                Ok(d) => if views(current@).contains(d) {
                    r matches Err(x) && x == CatalogError::AlreadyListed
                } else {
                    match normalize_all(spec_added(views(current@), d)) {
                        Ok(n) => r matches Ok(s) && saved_catalog(n, views(s.domains@)) && s.body@ == catalog_body(views(s.domains@)),
                        Err(e) => r matches Err(x) && x == CatalogError::InvalidDomain(e),
                    }
                },
            },
    {
        let normalized = match normalize_domain(domain) {
            Ok(d) => d,
            Err(e) => return Err(CatalogError::InvalidDomain(e)),
        };
        if let Some(q) = position_of(current, normalized.as_str()) {
            assert(views(current@).contains(normalized@));
            return Err(CatalogError::AlreadyListed);
        }
        let mut domains = crate::text::clone_strings(current);
        let ghost d = normalized@;
        domains.push(normalized);
        assert(views(domains@) =~= spec_added(views(current@), d));
        match save_catalog(&domains) {
            Ok(s) => Ok(s),
            Err(e) => Err(CatalogError::InvalidDomain(e)),
        }
    }

    /// Replaces `original` with `replacement` in the catalogue `current`: both are
    /// normalized; the original must be listed, and the replacement must not be listed
    /// unless it is the original.
    pub fn update(&self, current: &Vec<String>, original: &str, replacement: &str) -> (r: Result<SavedCatalog, CatalogError>)
        ensures
            match spec_normalize_domain(original@) {
                Err(e) => r matches Err(x) && x == CatalogError::InvalidDomain(e),
                Ok(o) => match spec_normalize_domain(replacement@) {
                    Err(e) => r matches Err(x) && x == CatalogError::InvalidDomain(e),
                    Ok(n) => if !views(current@).contains(o) {
                        r matches Err(x) && x == CatalogError::EditTargetMissing
                    } else if n != o && views(current@).contains(n) {
                        r matches Err(x) && x == CatalogError::EditWouldDuplicate
                    } else {
                        let pos = first_position(views(current@), o);
                        match normalize_all(spec_updated(views(current@), pos, n)) {
                            Ok(all) => r matches Ok(s) && saved_catalog(all, views(s.domains@)) && s.body@ == catalog_body(views(s.domains@)),
                            Err(e) => r matches Err(x) && x == CatalogError::InvalidDomain(e),
                        }
                    },
                },
            },
    {
        let o = match normalize_domain(original) {
            Ok(d) => d,
            Err(e) => return Err(CatalogError::InvalidDomain(e)),
        };
        let n = match normalize_domain(replacement) {
            Ok(d) => d,
            Err(e) => return Err(CatalogError::InvalidDomain(e)),
        };
        let pos = match position_of(current, o.as_str()) {
            Some(p) => p,
            None => return Err(CatalogError::EditTargetMissing),
        };
        proof {
            let cv = views(current@);
            assert(cv.contains(o@));
            assert(first_at(cv, o@, pos as int));
            let c = first_position(cv, o@);
            assert(first_at(cv, o@, c));
            if c < pos {
                assert(cv[c] != o@);
            } else if c > pos {
                assert(cv[pos as int] != o@);
            }
            assert(c == pos);
        }
        if !str_eq(n.as_str(), o.as_str()) {
            if let Some(q) = position_of(current, n.as_str()) {
                assert(views(current@).contains(n@));
                return Err(CatalogError::EditWouldDuplicate);
            }
        }
        let mut domains = crate::text::clone_strings(current);
        let ghost nd = n@;
        domains.set(pos, n);
        assert(views(domains@) =~= spec_updated(views(current@), pos as int, nd));
        match save_catalog(&domains) {
            Ok(s) => Ok(s),
            Err(e) => Err(CatalogError::InvalidDomain(e)),
        }
    }

    /// Removes `domain`, normalized, from the catalogue `current`; it must be listed.
    pub fn remove(&self, current: &Vec<String>, domain: &str) -> (r: Result<SavedCatalog, CatalogError>)
        ensures
            match spec_normalize_domain(domain@) {
                Err(e) => r matches Err(x) && x == CatalogError::InvalidDomain(e),
                Ok(d) => if !views(current@).contains(d) {
                    r matches Err(x) && x == CatalogError::RemoveTargetMissing
                } else {
                    match normalize_all(spec_removed(views(current@), d)) {
                        Ok(n) => r matches Ok(s) && saved_catalog(n, views(s.domains@)) && s.body@ == catalog_body(views(s.domains@)),
                        Err(e) => r matches Err(x) && x == CatalogError::InvalidDomain(e),
                    }
                },
            },
    {
        let d = match normalize_domain(domain) {
            Ok(d) => d,
            Err(e) => return Err(CatalogError::InvalidDomain(e)),
        };
        let ghost cv = views(current@);
        let ghost keep = other_than(d@);
        let mut kept: Vec<String> = Vec::new();
        let mut removed = false;
        proof {
            reveal(Seq::filter);
            assert(cv.take(0) =~= Seq::<Seq<char>>::empty());
        }
        for i in 0..current.len()
            invariant
                cv == views(current@),
                keep == other_than(d@),
                views(kept@) == cv.take(i as int).filter(keep),
                removed == cv.take(i as int).contains(d@),
        {
            proof {
                assert(cv.take(i + 1).drop_last() =~= cv.take(i as int));
                assert(cv.take(i + 1).last() == current@[i as int]@);
                reveal(Seq::filter);
                assert(cv.take(i + 1) =~= cv.take(i as int).push(cv[i as int]));
            }
            if str_eq(current[i].as_str(), d.as_str()) {
                removed = true;
                assert(cv.take(i + 1)[i as int] == d@);
            } else {
                let ghost before = views(kept@);
                kept.push(current[i].clone());
                assert(views(kept@) =~= before.push(current@[i as int]@));
                proof {
                    if cv.take(i + 1).contains(d@) {
                        let k = choose|k: int| 0 <= k < i + 1 && #[trigger] cv.take(i + 1)[k] == d@;
                        assert(k < i);
                        assert(cv.take(i as int)[k] == d@);
                    }
                }
            }
            proof {
                if cv.take(i as int).contains(d@) {
                    let k = choose|k: int| 0 <= k < i && #[trigger] cv.take(i as int)[k] == d@;
                    assert(cv.take(i + 1)[k] == d@);
                }
            }
        }
        assert(cv.take(current.len() as int) =~= cv);
        if !removed {
            return Err(CatalogError::RemoveTargetMissing);
        }
        match save_catalog(&kept) {
            Ok(s) => Ok(s),
            Err(e) => Err(CatalogError::InvalidDomain(e)),
        }
    }
}


// ---------------------------------------------------------------- laws

/// A normalized domain is not empty, holds no whitespace and does not start with `#`.
proof fn lemma_normalized_shape(d: Seq<char>)
    requires
        spec_normalize_domain(d) == Ok::<Seq<char>, DomainError>(d),
    ensures
        d.len() > 0,
        forall|i: int| 0 <= i < d.len() ==> !is_ws(#[trigger] d[i]),
        d[0] != '#',
{
    let c = domain_candidate(d);
    assert(c == d);
    assert(d.len() > 0);
    assert forall|i: int| 0 <= i < d.len() implies !is_ws(#[trigger] d[i]) by {}
    crate::text::lemma_split_from_first(d, '.', 0, 0);
    let j = choose|j: int| 0 <= j <= d.len() && split_from(d, '.', 0, 0)[0] == d.subrange(0, j)
        && forall|k: int| 0 <= k < j ==> #[trigger] d[k] != '.';
    let labels = split(d, '.');
    assert(labels.len() > 0) by {
        assert(split_from(d, '.', 0, 0).len() > 0) by {
            lemma_split_nonempty(d, '.', 0, 0);
        }
    }
    assert(first_label_error(labels) is None);
    assert(label_error(labels[0]) is None);
    let first = d.subrange(0, j);
    assert(labels[0] == first);
    assert(first.len() > 0);
    assert(first[0] == d[0]);
    assert(crate::app::is_label_char(first[0])) by {
        if !crate::app::is_label_char(first[0]) {
            assert(exists|i: int| 0 <= i < first.len() && !crate::app::is_label_char(#[trigger] first[i]));
        }
    }
}

proof fn lemma_split_nonempty(s: Seq<char>, sep: char, start: int, pos: int)
    requires
        0 <= start <= pos <= s.len(),
    ensures
        split_from(s, sep, start, pos).len() > 0,
    decreases s.len() - pos,
{
    if pos < s.len() && s[pos] != sep {
        lemma_split_nonempty(s, sep, start, pos + 1);
    }
}

proof fn lemma_filter_all<A>(s: Seq<A>, p: spec_fn(A) -> bool)
    requires
        forall|i: int| 0 <= i < s.len() ==> p(#[trigger] s[i]),
    ensures
        s.filter(p) == s,
    decreases s.len(),
{
    reveal(Seq::filter);
    if s.len() > 0 {
        lemma_filter_all(s.drop_last(), p);
        assert(s.drop_last().push(s.last()) =~= s);
    }
}

proof fn lemma_normalize_all_fixed(s: Seq<Seq<char>>)
    requires
        forall|i: int| 0 <= i < s.len() ==> spec_normalize_domain(#[trigger] s[i]) == Ok::<Seq<char>, DomainError>(s[i]),
    ensures
        normalize_all(s) == Ok::<Seq<Seq<char>>, DomainError>(s),
    decreases s.len(),
{
    if s.len() > 0 {
        let rest = s.drop_first();
        assert forall|i: int| 0 <= i < rest.len() implies spec_normalize_domain(#[trigger] rest[i]) == Ok::<Seq<char>, DomainError>(rest[i]) by {
            assert(rest[i] == s[i + 1]);
        }
        lemma_normalize_all_fixed(rest);
        assert(spec_normalize_domain(s[0]) == Ok::<Seq<char>, DomainError>(s[0]));
        assert(seq![s[0]] + rest =~= s);
    } else {
        assert(s =~= Seq::<Seq<char>>::empty());
    }
}

/// What saving a catalogue writes to the file reads back as the same catalogue.
pub proof fn lemma_catalog_round_trip(kept: Seq<Seq<char>>)
    requires
        is_catalog(kept),
    ensures
        normalize_all(catalog_entries(catalog_body(kept))) == Ok::<Seq<Seq<char>>, DomainError>(kept),
        forall|read: Seq<Seq<char>>| saved_catalog(kept, read) ==> read == kept,
{
    assert forall|i: int| 0 <= i < kept.len() implies {
        &&& kept[i].len() > 0
        &&& (forall|m: int| 0 <= m < kept[i].len() ==> !is_ws(#[trigger] kept[i][m]))
        &&& kept[i][0] != '#'
    } by {
        lemma_normalized_shape(kept[i]);
    }
    let body = catalog_body(kept);
    let ls = lines(body);
    if kept.len() == 0 {
        assert(body.len() == 0);
        assert(split(body, '\n') =~= seq![Seq::<char>::empty()]) by {
            assert(body.subrange(0, 0) =~= Seq::<char>::empty());
        }
        assert(ls =~= Seq::<Seq<char>>::empty());
    } else {
        crate::text::lemma_join_terminated(kept, '\n');
        reveal_strlit("\n");
        assert("\n"@ =~= seq!['\n']);
        assert(body == terminated(kept, '\n'));
        assert forall|i: int, m: int| 0 <= i < kept.len() && 0 <= m < kept[i].len() implies #[trigger] kept[i][m] != '\n' by {
            assert(!is_ws(kept[i][m]));
        }
        crate::text::lemma_split_terminated(kept, '\n');
        let parts = split(body, '\n');
        assert(parts == kept.push(Seq::<char>::empty()));
        assert(parts.drop_last() =~= kept);
        assert forall|i: int| 0 <= i < kept.len() implies #[trigger] kept[i].last() != '\r' by {
            assert(!is_ws(kept[i][kept[i].len() - 1]));
        }
        assert(ls =~= kept);
    }
    let tl = ls.map_values(|l: Seq<char>| trim_ws(l));
    assert(tl =~= kept) by {
        assert forall|i: int| 0 <= i < kept.len() implies #[trigger] trim_ws(kept[i]) == kept[i] by {
            crate::text::lemma_trim_ws_noop(kept[i]);
        }
    }
    assert(trimmed_lines(body) == kept);
    assert forall|i: int| 0 <= i < kept.len() implies entry_lines()(#[trigger] kept[i]) by {
        assert(is_entry(kept[i]));
    }
    lemma_filter_all(kept, entry_lines());
    assert(catalog_entries(body) == kept);
    lemma_normalize_all_fixed(kept);
    assert forall|read: Seq<Seq<char>>| saved_catalog(kept, read) implies read == kept by {
        crate::sorted::lemma_sorted_unique(read, kept);
    }
}

/// Saving always yields a catalogue: its domains are normalized, sorted and distinct.
pub proof fn lemma_saved_is_catalog(input: Seq<Seq<char>>, normalized: Seq<Seq<char>>, kept: Seq<Seq<char>>)
    requires
        normalize_all(input) == Ok::<Seq<Seq<char>>, DomainError>(normalized),
        saved_catalog(normalized, kept),
    ensures
        is_catalog(kept),
{
    lemma_normalize_all_outputs(input, normalized);
    assert forall|i: int| 0 <= i < kept.len() implies spec_normalize_domain(#[trigger] kept[i]) == Ok::<Seq<char>, DomainError>(kept[i]) by {
        assert(kept.to_set().contains(kept[i]));
        assert(normalized.to_set().contains(kept[i]));
        let k = choose|k: int| 0 <= k < normalized.len() && normalized[k] == kept[i];
    }
}

/// Every domain that normalizing gives is normalized already.
proof fn lemma_normalize_all_outputs(input: Seq<Seq<char>>, normalized: Seq<Seq<char>>)
    requires
        normalize_all(input) == Ok::<Seq<Seq<char>>, DomainError>(normalized),
    ensures
        forall|k: int| 0 <= k < normalized.len() ==> spec_normalize_domain(#[trigger] normalized[k]) == Ok::<Seq<char>, DomainError>(normalized[k]),
    decreases input.len(),
{
    if input.len() > 0 {
        let d = spec_normalize_domain(input[0])->Ok_0;
        crate::app::lemma_normalize_domain_idempotent(input[0]);
        let rest = normalize_all(input.drop_first())->Ok_0;
        lemma_normalize_all_outputs(input.drop_first(), rest);
        assert(normalized == seq![d] + rest);
        assert forall|k: int| 0 <= k < normalized.len() implies spec_normalize_domain(#[trigger] normalized[k]) == Ok::<Seq<char>, DomainError>(normalized[k]) by {
            if k > 0 {
                assert(normalized[k] == rest[k - 1]);
            }
        }
    }
}


/// Adding a domain that is not listed to a catalogue, then removing it, gives the catalogue
/// back: what `add` saves lists the domain, and what `remove` then saves is the original.
pub proof fn lemma_add_then_remove(current: Seq<Seq<char>>, input: Seq<char>)
    requires
        is_catalog(current),
        spec_normalize_domain(input) is Ok,
        !current.contains(spec_normalize_domain(input)->Ok_0),
    ensures
        ({
            let d = spec_normalize_domain(input)->Ok_0;
            &&& normalize_all(spec_added(current, d)) == Ok::<Seq<Seq<char>>, DomainError>(spec_added(current, d))
            &&& forall|added: Seq<Seq<char>>| #[trigger] saved_catalog(spec_added(current, d), added) ==> {
                &&& added.contains(d)
                &&& normalize_all(spec_removed(added, d)) == Ok::<Seq<Seq<char>>, DomainError>(spec_removed(added, d))
                &&& forall|removed: Seq<Seq<char>>| #[trigger] saved_catalog(spec_removed(added, d), removed) ==> removed == current
            }
        }),
{
    let d = spec_normalize_domain(input)->Ok_0;
    crate::app::lemma_normalize_domain_idempotent(input);
    let pushed = spec_added(current, d);
    assert forall|i: int| 0 <= i < pushed.len() implies spec_normalize_domain(#[trigger] pushed[i]) == Ok::<Seq<char>, DomainError>(pushed[i]) by {
        if i < current.len() {
            assert(pushed[i] == current[i]);
        }
    }
    lemma_normalize_all_fixed(pushed);
    crate::sorted::lemma_push_to_set(current, d);
    assert forall|added: Seq<Seq<char>>| #[trigger] saved_catalog(pushed, added) implies {
        &&& added.contains(d)
        &&& normalize_all(spec_removed(added, d)) == Ok::<Seq<Seq<char>>, DomainError>(spec_removed(added, d))
        &&& forall|removed: Seq<Seq<char>>| #[trigger] saved_catalog(spec_removed(added, d), removed) ==> removed == current
    } by {
        assert(added.to_set() == current.to_set().insert(d));
        assert(added.to_set().contains(d));
        let f = spec_removed(added, d);
        let keep = other_than(d);
        assert forall|k: int| 0 <= k < f.len() implies spec_normalize_domain(#[trigger] f[k]) == Ok::<Seq<char>, DomainError>(f[k]) by {
            crate::cli::output::lemma_filter_from(added, keep, k);
            let m = choose|m: int| 0 <= m < added.len() && added[m] == f[k];
            assert(added.to_set().contains(added[m]));
            assert(current.to_set().insert(d).contains(f[k]));
            if f[k] != d {
                assert(current.to_set().contains(f[k]));
                let c = choose|c: int| 0 <= c < current.len() && current[c] == f[k];
            }
        }
        lemma_normalize_all_fixed(f);
        assert(f.to_set() =~= current.to_set()) by {
            assert forall|e: Seq<char>| f.to_set().contains(e) <==> current.to_set().contains(e) by {
                if f.to_set().contains(e) {
                    let k = choose|k: int| 0 <= k < f.len() && f[k] == e;
                    crate::cli::output::lemma_filter_from(added, keep, k);
                    let m = choose|m: int| 0 <= m < added.len() && added[m] == f[k];
                    assert(added.to_set().contains(added[m]));
                    added.lemma_filter_pred(keep, k);
                    assert(e != d);
                    assert(current.to_set().insert(d).contains(e));
                }
                if current.to_set().contains(e) {
                    let c = choose|c: int| 0 <= c < current.len() && current[c] == e;
                    assert(e != d);
                    assert(current.to_set().insert(d).contains(e));
                    assert(added.to_set().contains(e));
                    let m = choose|m: int| 0 <= m < added.len() && added[m] == e;
                    added.lemma_filter_contains(keep, m);
                }
            }
        }
        assert forall|removed: Seq<Seq<char>>| #[trigger] saved_catalog(f, removed) implies removed == current by {
            crate::sorted::lemma_sorted_unique(removed, current);
        }
    }
}

/// A strictly sorted list has as many entries as distinct elements.
proof fn lemma_sorted_len(s: Seq<Seq<char>>)
    requires
        strictly_sorted(s),
    ensures
        s.to_set().len() == s.len(),
{
    assert forall|i: int, j: int| 0 <= i < s.len() && 0 <= j < s.len() && i != j implies s[i] != s[j] by {
        crate::sorted::lemma_lex_irreflexive(s[i]);
        if i < j {
            assert(crate::sorted::lex_lt(s[i], s[j]));
        } else {
            assert(crate::sorted::lex_lt(s[j], s[i]));
        }
    }
    s.unique_seq_to_set();
}

/// Keeping some entries of a strictly sorted list keeps it strictly sorted.
proof fn lemma_filter_sorted(s: Seq<Seq<char>>, p: spec_fn(Seq<char>) -> bool)
    requires
        strictly_sorted(s),
    ensures
        strictly_sorted(s.filter(p)),
    decreases s.len(),
{
    reveal(Seq::filter);
    if s.len() > 0 {
        let init = s.drop_last();
        assert(strictly_sorted(init)) by {
            assert forall|i: int, j: int| 0 <= i < j < init.len() implies crate::sorted::lex_lt(#[trigger] init[i], #[trigger] init[j]) by {
                assert(init[i] == s[i] && init[j] == s[j]);
            }
        }
        lemma_filter_sorted(init, p);
        let f = init.filter(p);
        if p(s.last()) {
            let g = f.push(s.last());
            assert(s.filter(p) == g);
            assert forall|i: int, j: int| 0 <= i < j < g.len() implies crate::sorted::lex_lt(#[trigger] g[i], #[trigger] g[j]) by {
                if j == g.len() - 1 {
                    crate::cli::output::lemma_filter_from(init, p, i);
                    let m = choose|m: int| 0 <= m < init.len() && init[m] == f[i];
                    assert(s[m] == g[i]);
                    assert(s[s.len() - 1] == g[j]);
                } else {
                    assert(g[i] == f[i] && g[j] == f[j]);
                }
            }
        } else {
            assert(s.filter(p) == f);
        }
    }
}

/// Reading back what is saved for a catalogue gives that catalogue: for a catalogue `v`,
/// `catalog_from_contents(catalog_body(v))` is `Ok(v)`.
pub proof fn lemma_catalog_reads_back(v: Seq<Seq<char>>, r: Result<Seq<Seq<char>>, DomainError>)
    requires
        is_catalog(v),
        reads_catalog(catalog_body(v), r),
    ensures
        r == Ok::<Seq<Seq<char>>, DomainError>(v),
{
    lemma_catalog_round_trip(v);
    if let Ok(read) = r {
        assert(saved_catalog(v, read));
    }
}

/// Saving a list of domains that all normalize keeps the normalized domains, each once, in
/// ascending order, and reading the file back gives that catalogue: `saved` is what
/// `save_catalog` keeps for `input`, and `r` what reading its file text gives.
pub proof fn lemma_save_then_read(input: Seq<Seq<char>>, saved: Seq<Seq<char>>, r: Result<Seq<Seq<char>>, DomainError>)
    requires
        normalize_all(input) is Ok,
        saved_catalog(normalize_all(input)->Ok_0, saved),
        reads_catalog(catalog_body(saved), r),
    ensures
        is_catalog(saved),
        saved.to_set() == normalize_all(input)->Ok_0.to_set(),
        r == Ok::<Seq<Seq<char>>, DomainError>(saved),
{
    lemma_saved_is_catalog(input, normalize_all(input)->Ok_0, saved);
    lemma_catalog_reads_back(saved, r);
}

/// Adding a valid domain that the catalogue `current` does not list always succeeds, and the
/// catalogue saved (`saved`) is the old one with the domain added: in ascending order, one
/// entry longer, and read back as it was saved (`r`).
pub proof fn lemma_add_to_catalog(current: Seq<Seq<char>>, domain: Seq<char>, saved: Seq<Seq<char>>, r: Result<Seq<Seq<char>>, DomainError>)
    requires
        is_catalog(current),
        spec_normalize_domain(domain) is Ok,
        !current.contains(spec_normalize_domain(domain)->Ok_0),
        saved_catalog(spec_added(current, spec_normalize_domain(domain)->Ok_0), saved),
        reads_catalog(catalog_body(saved), r),
    ensures
        ({
            let d = spec_normalize_domain(domain)->Ok_0;
            &&& normalize_all(spec_added(current, d)) == Ok::<Seq<Seq<char>>, DomainError>(spec_added(current, d))
            &&& is_catalog(saved)
            &&& saved.to_set() == current.to_set().insert(d)
            &&& saved.len() == current.len() + 1
            &&& r == Ok::<Seq<Seq<char>>, DomainError>(saved)
        }),
{
    let d = spec_normalize_domain(domain)->Ok_0;
    lemma_add_then_remove(current, domain);
    crate::sorted::lemma_push_to_set(current, d);
    lemma_save_then_read(spec_added(current, d), saved, r);
    lemma_sorted_len(current);
    lemma_sorted_len(saved);
    assert(!current.to_set().contains(d));
}

/// Removing a listed domain from the catalogue `current` always succeeds, and the catalogue
/// saved (`saved`) is the old one without it, in the same order, one entry shorter, and read
/// back as it was saved (`r`).
pub proof fn lemma_remove_from_catalog(current: Seq<Seq<char>>, domain: Seq<char>, saved: Seq<Seq<char>>, r: Result<Seq<Seq<char>>, DomainError>)
    requires
        is_catalog(current),
        spec_normalize_domain(domain) is Ok,
        current.contains(spec_normalize_domain(domain)->Ok_0),
        saved_catalog(spec_removed(current, spec_normalize_domain(domain)->Ok_0), saved),
        reads_catalog(catalog_body(saved), r),
    ensures
        ({
            let d = spec_normalize_domain(domain)->Ok_0;
            &&& normalize_all(spec_removed(current, d)) == Ok::<Seq<Seq<char>>, DomainError>(spec_removed(current, d))
            &&& saved == spec_removed(current, d)
            &&& saved.to_set() == current.to_set().remove(d)
            &&& saved.len() == current.len() - 1
            &&& r == Ok::<Seq<Seq<char>>, DomainError>(saved)
        }),
{
    let d = spec_normalize_domain(domain)->Ok_0;
    let keep = other_than(d);
    let f = spec_removed(current, d);
    assert forall|k: int| 0 <= k < f.len() implies spec_normalize_domain(#[trigger] f[k]) == Ok::<Seq<char>, DomainError>(f[k]) by {
        crate::cli::output::lemma_filter_from(current, keep, k);
        let m = choose|m: int| 0 <= m < current.len() && current[m] == f[k];
    }
    lemma_normalize_all_fixed(f);
    lemma_filter_sorted(current, keep);
    assert(f.to_set() =~= current.to_set().remove(d)) by {
        assert forall|e: Seq<char>| f.to_set().contains(e) <==> current.to_set().remove(d).contains(e) by {
            if f.to_set().contains(e) {
                let k = choose|k: int| 0 <= k < f.len() && f[k] == e;
                crate::cli::output::lemma_filter_from(current, keep, k);
                let m = choose|m: int| 0 <= m < current.len() && current[m] == f[k];
                current.lemma_filter_pred(keep, k);
                assert(current.to_set().contains(current[m]));
            }
            if current.to_set().remove(d).contains(e) {
                let c = choose|c: int| 0 <= c < current.len() && current[c] == e;
                current.lemma_filter_contains(keep, c);
            }
        }
    }
    crate::sorted::lemma_sorted_unique(saved, f);
    lemma_save_then_read(f, saved, r);
    lemma_sorted_len(current);
    lemma_sorted_len(saved);
    assert(current.to_set().contains(d));
}

} // verus!
