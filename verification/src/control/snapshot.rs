//! Snapshots of the DNS configuration of each network service, and the check that the
//! network was restored to one.
use vstd::prelude::*;

use crate::clock::Timestamp;
use crate::storage::state::RestoreVerification;
use crate::text::{clone_strings, concat3, join, join_strings, owned, str_eq, views};

verus! {

/// The DNS servers of one network service.
#[derive(Debug, Clone)]
pub struct NetworkServiceSnapshot {
    pub service: String,
    pub dns_servers: Vec<String>,
}

/// The DNS configuration of the network at one instant.
#[derive(Debug, Clone)]
pub struct NetworkSnapshot {
    pub id: String,
    pub captured_at: Timestamp,
    pub interface_scope: Vec<String>,
    pub services: Vec<NetworkServiceSnapshot>,
    pub restorable: bool,
}

/// A service snapshot as plain values: its name and its servers.
pub open spec fn service_view(s: NetworkServiceSnapshot) -> (Seq<char>, Seq<Seq<char>>) {
    (s.service@, views(s.dns_servers@))
}

pub open spec fn services_view(v: Seq<NetworkServiceSnapshot>) -> Seq<(Seq<char>, Seq<Seq<char>>)> {
    v.map_values(|s: NetworkServiceSnapshot| service_view(s))
}

/// The servers of the first entry of `current` named `name`, if any.
pub open spec fn find_service(
    current: Seq<(Seq<char>, Seq<Seq<char>>)>,
    name: Seq<char>,
) -> Option<Seq<Seq<char>>>
    decreases current.len(),
{
    if current.len() == 0 {
        None
    } else if current[0].0 == name {
        Some(current[0].1)
    } else {
        find_service(current.drop_first(), name)
    }
}

/// The expected service is missing from `current`, or its servers differ.
pub open spec fn service_mismatch(
    current: Seq<(Seq<char>, Seq<Seq<char>>)>,
    expected: (Seq<char>, Seq<Seq<char>>),
) -> bool {
    match find_service(current, expected.0) {
        Some(found) => found != expected.1,
        None => true,
    }
}

/// The names of the expected services that `current` does not reproduce, in order.
pub open spec fn mismatched_services(
    expected: Seq<(Seq<char>, Seq<Seq<char>>)>,
    current: Seq<(Seq<char>, Seq<Seq<char>>)>,
) -> Seq<Seq<char>>
    decreases expected.len(),
{
    if expected.len() == 0 {
        Seq::empty()
    } else {
        let rest = mismatched_services(expected.drop_last(), current);
        if service_mismatch(current, expected.last()) {
            rest.push(expected.last().0)
        } else {
            rest
        }
    }
}

pub open spec fn match_summary() -> Seq<char> {
    "La red coincide con el snapshot original capturado por Sentinel."@
}

pub open spec fn mismatch_summary(names: Seq<Seq<char>>) -> Seq<char> {
    "La restauracion no coincide con el snapshot en: "@ + join(names, ", "@) + "."@
}

impl NetworkServiceSnapshot {
    /// A copy of this service snapshot.
    pub fn duplicate(&self) -> (r: NetworkServiceSnapshot)
        ensures
            service_view(r) == service_view(*self),
    {
        NetworkServiceSnapshot { service: self.service.clone(), dns_servers: clone_strings(&self.dns_servers) }
    }
}

/// Two lists of strings hold the same strings in the same order.
pub fn same_strings(a: &Vec<String>, b: &Vec<String>) -> (r: bool)
    ensures
        r == (views(a@) == views(b@)),
{
    if a.len() != b.len() {
        assert(views(a@).len() != views(b@).len());
        return false;
    }
    let mut i: usize = 0;
    while i < a.len()
        invariant
            a.len() == b.len(),
            i <= a.len(),
            forall|k: int| 0 <= k < i ==> a@[k]@ == b@[k]@,
        decreases a.len() - i,
    {
        if !str_eq(a[i].as_str(), b[i].as_str()) {
            assert(views(a@)[i as int] != views(b@)[i as int]);
            return false;
        }
        i += 1;
    }
    assert(views(a@) =~= views(b@));
    true
}

/// The servers that `current` lists for `name` (its first entry of that name), if any.
pub fn find_servers<'a>(current: &'a Vec<NetworkServiceSnapshot>, name: &str) -> (r: Option<&'a Vec<String>>)
    ensures
        match find_service(services_view(current@), name@) {
            Some(found) => r matches Some(v) && views(v@) == found,
            None => r is None,
        },
{
    let ghost cv = services_view(current@);
    let mut i: usize = 0;
    assert(cv.subrange(0, cv.len() as int) =~= cv);
    while i < current.len()
        invariant
            cv == services_view(current@),
            i <= current.len(),
            find_service(cv, name@) == find_service(cv.subrange(i as int, cv.len() as int), name@),
        decreases current.len() - i,
    {
        let ghost rest = cv.subrange(i as int, cv.len() as int);
        assert(rest[0] == service_view(current@[i as int]));
        if str_eq(current[i].service.as_str(), name) {
            return Some(&current[i].dns_servers);
        }
        assert(rest.drop_first() =~= cv.subrange(i + 1, cv.len() as int));
        i += 1;
    }
    None
}

/// The services of `expected` that `current` does not reproduce: missing, or with other
/// servers.
pub fn find_mismatches(expected: &NetworkSnapshot, current: &Vec<NetworkServiceSnapshot>) -> (r: Vec<String>)
    ensures
        views(r@) == mismatched_services(services_view(expected.services@), services_view(current@)),
{
    let ghost ev = services_view(expected.services@);
    let ghost cv = services_view(current@);
    let mut out: Vec<String> = Vec::new();
    let mut i: usize = 0;
    while i < expected.services.len()
        invariant
            ev == services_view(expected.services@),
            cv == services_view(current@),
            i <= expected.services.len(),
            views(out@) == mismatched_services(ev.take(i as int), cv),
        decreases expected.services.len() - i,
    {
        let item = &expected.services[i];
        assert(ev.take(i + 1).drop_last() =~= ev.take(i as int));
        assert(ev.take(i + 1).last() == service_view(*item));
        let mismatch = match find_servers(current, item.service.as_str()) {
            Some(found) => !same_strings(found, &item.dns_servers),
            None => true,
        };
        if mismatch {
            out.push(item.service.clone());
            assert(views(out@) =~= views(out@).drop_last().push(item.service@));
        }
        i += 1;
    }
    assert(ev.take(expected.services.len() as int) =~= ev);
    out
}

/// The verdict of comparing the network as it is now (`current`) with the snapshot it was
/// restored to: a match when every expected service is present with the same servers,
/// otherwise a failure naming the services that differ. It is dated now.
pub fn verify_against(expected: &NetworkSnapshot, current: &Vec<NetworkServiceSnapshot>) -> (r: RestoreVerification)
    ensures
        ({
            let names = mismatched_services(services_view(expected.services@), services_view(current@));
            &&& r.matches_snapshot == (names.len() == 0)
            &&& views(r.mismatched_services@) == names
            &&& r.summary@ == (if names.len() == 0 { match_summary() } else { mismatch_summary(names) })
        }),
        r.checked_at.wf(),
{
    let mismatched = find_mismatches(expected, current);
    if mismatched.len() == 0 {
        assert(views(mismatched@).len() == 0);
        RestoreVerification::success(owned("La red coincide con el snapshot original capturado por Sentinel."))
    } else {
        let listed = join_strings(mismatched.as_slice(), ", ");
        let summary = concat3("La restauracion no coincide con el snapshot en: ", listed.as_str(), ".");
        RestoreVerification::failure(mismatched, summary)
    }
}

} // verus!

verus! {

/// The first entry named like entry `k`, when no earlier entry has its name, is entry `k`.
proof fn lemma_find_service_at(s: Seq<(Seq<char>, Seq<Seq<char>>)>, k: int)
    requires
        0 <= k < s.len(),
        forall|j: int| 0 <= j < k ==> (#[trigger] s[j]).0 != s[k].0,
    ensures
        find_service(s, s[k].0) == Some(s[k].1),
    decreases k,
{
    if k > 0 {
        let t = s.drop_first();
        assert(t[k - 1] == s[k]);
        assert forall|j: int| 0 <= j < k - 1 implies (#[trigger] t[j]).0 != t[k - 1].0 by {
            assert(t[j] == s[j + 1]);
        }
        lemma_find_service_at(t, k - 1);
    }
}

/// A network that is exactly the snapshot (services named once each) is found to match it:
/// restoring a snapshot and checking the result reports no difference.
pub proof fn lemma_restored_network_matches(expected: Seq<(Seq<char>, Seq<Seq<char>>)>)
    requires
        forall|i: int, j: int| 0 <= i < j < expected.len() ==> (#[trigger] expected[i]).0 != (#[trigger] expected[j]).0,
    ensures
        mismatched_services(expected, expected).len() == 0,
{
    lemma_no_mismatch_prefix(expected, expected.len() as int);
    assert(expected.take(expected.len() as int) =~= expected);
}

proof fn lemma_no_mismatch_prefix(expected: Seq<(Seq<char>, Seq<Seq<char>>)>, m: int)
    requires
        0 <= m <= expected.len(),
        forall|i: int, j: int| 0 <= i < j < expected.len() ==> (#[trigger] expected[i]).0 != (#[trigger] expected[j]).0,
    ensures
        mismatched_services(expected.take(m), expected).len() == 0,
    decreases m,
{
    if m > 0 {
        let p = expected.take(m);
        assert(p.drop_last() =~= expected.take(m - 1));
        lemma_no_mismatch_prefix(expected, m - 1);
        assert forall|j: int| 0 <= j < m - 1 implies (#[trigger] expected[j]).0 != expected[m - 1].0 by {}
        lemma_find_service_at(expected, m - 1);
        assert(p.last() == expected[m - 1]);
    }
}

} // verus!
