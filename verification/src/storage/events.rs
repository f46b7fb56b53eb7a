//! The operational event log and what it says about blocking activity.
use vstd::prelude::*;

use crate::app::AppPaths;
use crate::clock::{utc_now, Timestamp};
use crate::ids::new_uuid;
use crate::text::concat;

verus! {

/// What an event is about.
#[derive(Debug, Clone, Copy, PartialEq, Eq, Structural)]
pub enum EventKind {
    SafetyCheck,
    Enable,
    Disable,
    Recover,
    Install,
    Update,
    Reinstall,
    BlockedDomain,
    Error,
}

impl EventKind {
    pub open spec fn spec_label(self) -> Seq<char> {
        match self {
            EventKind::SafetyCheck => "Chequeo de seguridad"@,
            EventKind::Enable => "Activacion de Sentinel"@,
            EventKind::Disable => "Desactivacion de Sentinel"@,
            EventKind::Recover => "Recuperacion de red"@,
            EventKind::Install => "Instalacion"@,
            EventKind::Update => "Actualizacion"@,
            EventKind::Reinstall => "Reinstalacion"@,
            EventKind::BlockedDomain => "Bloqueo de dominio"@,
            EventKind::Error => "Error operativo"@,
        }
    }

    /// The label shown for the kind.
    pub fn label(self) -> (s: &'static str)
        ensures
            s@ == self.spec_label(),
    {
        match self {
            EventKind::SafetyCheck => "Chequeo de seguridad",
            EventKind::Enable => "Activacion de Sentinel",
            EventKind::Disable => "Desactivacion de Sentinel",
            EventKind::Recover => "Recuperacion de red",
            EventKind::Install => "Instalacion",
            EventKind::Update => "Actualizacion",
            EventKind::Reinstall => "Reinstalacion",
            EventKind::BlockedDomain => "Bloqueo de dominio",
            EventKind::Error => "Error operativo",
        }
    }
}

/// How serious an event is.
#[derive(Debug, Clone, Copy, PartialEq, Eq, Structural)]
pub enum Severity {
    Info,
    Warning,
    Error,
}

impl Severity {
    pub open spec fn spec_label(self) -> Seq<char> {
        match self {
            Severity::Info => "Info"@,
            Severity::Warning => "Advertencia"@,
            Severity::Error => "Error"@,
        }
    }

    /// The label shown for the severity.
    pub fn label(self) -> (s: &'static str)
        ensures
            s@ == self.spec_label(),
    {
        match self {
            Severity::Info => "Info",
            Severity::Warning => "Advertencia",
            Severity::Error => "Error",
        }
    }
}

/// One line of the event log.
#[derive(Debug, Clone)]
pub struct EventRecord {
    pub id: String,
    pub timestamp: Timestamp,
    pub kind: EventKind,
    pub severity: Severity,
    pub blocked_domain: Option<String>,
    pub message: String,
}

pub open spec fn blocked_message(domain: Seq<char>) -> Seq<char> {
    "Sentinel bloqueo una consulta DNS para "@ + domain
}

impl EventRecord {
    /// An event with a fresh identifier, happening now, about no blocked domain.
    pub fn new(kind: EventKind, severity: Severity, message: String) -> (r: EventRecord)
        ensures
            r.kind == kind,
            r.severity == severity,
            r.message@ == message@,
            r.blocked_domain is None,
            r.id@.len() == 36,
            r.timestamp.wf(),
    {
        EventRecord {
            id: new_uuid(),
            timestamp: utc_now(),
            kind,
            severity,
            blocked_domain: None,
            message,
        }
    }

    /// The informational event recording that a query for `domain` was blocked now.
    pub fn blocked_domain(domain: String) -> (r: EventRecord)
        ensures
            r.kind == EventKind::BlockedDomain,
            r.severity == Severity::Info,
            r.blocked_domain matches Some(d) && d@ == domain@,
            r.message@ == blocked_message(domain@),
            r.id@.len() == 36,
            r.timestamp.wf(),
    {
        let message = concat("Sentinel bloqueo una consulta DNS para ", domain.as_str());
        EventRecord {
            id: new_uuid(),
            timestamp: utc_now(),
            kind: EventKind::BlockedDomain,
            severity: Severity::Info,
            blocked_domain: Some(domain),
            message,
        }
    }
}

/// What the log says about blocking since the protection was last enabled.
#[derive(Debug, Clone)]
pub struct BlockActivitySummary {
    pub blocked_since_activation: usize,
    pub unique_blocked_domains: usize,
    pub last_blocked_at: Option<Timestamp>,
    pub top_blocked_domains: Vec<(String, usize)>,
}

impl BlockActivitySummary {
    /// No blocking at all.
    pub fn empty() -> (r: BlockActivitySummary)
        ensures
            r.blocked_since_activation == 0,
            r.unique_blocked_domains == 0,
            r.last_blocked_at is None,
            r.top_blocked_domains@.len() == 0,
    {
        BlockActivitySummary {
            blocked_since_activation: 0,
            unique_blocked_domains: 0,
            last_blocked_at: None,
            top_blocked_domains: Vec::new(),
        }
    }
}

/// Appends to and reads the event log under the application's paths.
pub struct EventStore {
    pub paths: AppPaths,
}

impl EventStore {
    pub fn new(paths: AppPaths) -> (r: EventStore)
        ensures
            r.paths == paths,
    {
        EventStore { paths }
    }
}

} // verus!

verus! {

/// `r` records the run of the safety checks `summary`.
pub open spec fn records_safety(summary: crate::storage::state::SafetyCheckSummary, r: EventRecord) -> bool {
    &&& r.kind == EventKind::SafetyCheck
    &&& r.severity == (match summary.status {
        crate::storage::state::SafetyStatus::Pass => Severity::Info,
        crate::storage::state::SafetyStatus::Warn => Severity::Warning,
        crate::storage::state::SafetyStatus::Fail => Severity::Error,
    })
    &&& r.message@ == crate::control::activation::safety_report(summary)
    &&& r.blocked_domain is None
    &&& r.timestamp.wf()
}

/// The event that records a run of the safety checks: its severity follows the verdict, its
/// message is the issues joined by `" | "`, or the recommended action when there are none.
pub fn safety_event(summary: &crate::storage::state::SafetyCheckSummary) -> (r: EventRecord)
    ensures
        records_safety(*summary, r),
{
    let severity = match summary.status {
        crate::storage::state::SafetyStatus::Pass => Severity::Info,
        crate::storage::state::SafetyStatus::Warn => Severity::Warning,
        crate::storage::state::SafetyStatus::Fail => Severity::Error,
    };
    let message = if summary.issues.len() == 0 {
        summary.recommended_action.clone()
    } else {
        crate::text::join_strings(summary.issues.as_slice(), " | ")
    };
    EventRecord::new(EventKind::SafetyCheck, severity, message)
}

/// The newest `limit` events, newest first, from the log in the order it was written.
pub fn recent_from(items: Vec<EventRecord>, limit: usize) -> (r: Vec<EventRecord>)
    ensures
        r@ == items@.reverse().take(if limit < items@.len() { limit as int } else { items@.len() as int }),
{
    let mut items = items;
    let ghost all = items@;
    let n = items.len();
    let keep = if limit < n { limit } else { n };
    let mut r: Vec<EventRecord> = Vec::new();
    while r.len() < keep
        invariant
            keep <= n == all.len(),
            r@.len() <= keep,
            items@ == all.take(n - r@.len()),
            r@ == all.reverse().take(r@.len() as int),
        decreases keep - r@.len(),
    {
        let ghost k: int = r@.len() as int;
        let e = items.pop().unwrap();
        assert(e == all[n - k - 1]);
        r.push(e);
        assert(r@ =~= all.reverse().take(k + 1));
        assert(items@ =~= all.take(n - (k + 1)));
    }
    r
}

} // verus!

verus! {

/// When protection was last enabled, according to the log: the time of its last `Enable`
/// event, if any.
pub open spec fn last_enable_at(items: Seq<EventRecord>) -> Option<Timestamp>
    decreases items.len(),
{
    if items.len() == 0 {
        None
    } else if items.last().kind == EventKind::Enable {
        Some(items.last().timestamp)
    } else {
        last_enable_at(items.drop_last())
    }
}

/// A blocking event at or after `since` (none counts when protection was never enabled).
pub open spec fn in_window(e: EventRecord, since: Option<Timestamp>) -> bool {
    e.kind == EventKind::BlockedDomain && (since matches Some(t) && e.timestamp.spec_ge(t))
}

pub open spec fn window_filter(since: Option<Timestamp>) -> spec_fn(EventRecord) -> bool {
    |e: EventRecord| in_window(e, since)
}

/// The blocking events since protection was last enabled, in log order.
pub open spec fn activity_window(items: Seq<EventRecord>) -> Seq<EventRecord> {
    items.filter(window_filter(last_enable_at(items)))
}

/// `e` names the blocked domain `d`.
pub open spec fn names_domain(e: EventRecord, d: Seq<char>) -> bool {
    e.blocked_domain matches Some(x) && x@ == d
}

pub open spec fn naming(d: Seq<char>) -> spec_fn(EventRecord) -> bool {
    |e: EventRecord| names_domain(e, d)
}

/// How many events of `w` name `d`.
pub open spec fn hits(w: Seq<EventRecord>, d: Seq<char>) -> nat {
    w.filter(naming(d)).len()
}

/// The domains that some event of `w` names.
pub open spec fn named_domains(w: Seq<EventRecord>) -> Set<Seq<char>> {
    Set::new(|d: Seq<char>| exists|i: int| 0 <= i < w.len() && names_domain(#[trigger] w[i], d))
}

/// The ranking of the most blocked domains: more hits first, then by name.
pub open spec fn ranked_before(a: (Seq<char>, nat), b: (Seq<char>, nat)) -> bool {
    a.1 > b.1 || (a.1 == b.1 && crate::sorted::lex_lt(a.0, b.0))
}

pub open spec fn tally_view(v: Seq<(String, usize)>) -> Seq<(Seq<char>, nat)> {
    v.map_values(|p: (String, usize)| (p.0@, p.1 as nat))
}

pub open spec fn tally_names(v: Seq<(Seq<char>, nat)>) -> Seq<Seq<char>> {
    v.map_values(|p: (Seq<char>, nat)| p.0)
}

/// A tally of `w`: each domain that `w` names once, with its hits.
pub open spec fn is_tally(t: Seq<(Seq<char>, nat)>, w: Seq<EventRecord>) -> bool {
    &&& tally_names(t).no_duplicates()
    &&& tally_names(t).to_set() == named_domains(w)
    &&& forall|k: int| 0 <= k < t.len() ==> #[trigger] t[k].1 == hits(w, t[k].0)
}


proof fn lemma_named_push(w: Seq<EventRecord>, e: EventRecord)
    ensures
        named_domains(w.push(e)) == (match e.blocked_domain {
            Some(x) => named_domains(w).insert(x@),
            None => named_domains(w),
        }),
{
    let w2 = w.push(e);
    assert forall|d: Seq<char>| named_domains(w2).contains(d) <==> (match e.blocked_domain {
        Some(x) => named_domains(w).insert(x@),
        None => named_domains(w),
    }).contains(d) by {
        if named_domains(w2).contains(d) {
            let i = choose|i: int| 0 <= i < w2.len() && names_domain(#[trigger] w2[i], d);
            if i < w.len() {
                assert(names_domain(w[i], d));
                assert(named_domains(w).contains(d));
            }
        }
        if named_domains(w).contains(d) {
            let i = choose|i: int| 0 <= i < w.len() && names_domain(#[trigger] w[i], d);
            assert(names_domain(w2[i], d));
        }
        if e.blocked_domain matches Some(x) && x@ == d {
            assert(names_domain(w2[w.len() as int], d));
        }
    }
    match e.blocked_domain {
        Some(x) => { assert(named_domains(w2) =~= named_domains(w).insert(x@)); },
        None => { assert(named_domains(w2) =~= named_domains(w)); },
    }
}

/// Adds one event to a tally of `w`, giving a tally of `w` followed by the event.
fn count_event(tally: &mut Vec<(String, usize)>, e: &EventRecord, Ghost(w): Ghost<Seq<EventRecord>>)
    requires
        is_tally(tally_view(old(tally)@), w),
        w.len() < usize::MAX,
    ensures
        is_tally(tally_view(final(tally)@), w.push(*e)),
{
    let ghost w2 = w.push(*e);
    proof {
        lemma_named_push(w, *e);
        assert forall|d: Seq<char>| #[trigger] hits(w2, d) == hits(w, d) + (if names_domain(*e, d) { 1nat } else { 0nat }) by {
            crate::text::lemma_filter_push(w, *e, naming(d));
        }
        assert forall|d: Seq<char>| hits(w, d) <= w.len() by {
            w.lemma_filter_len(naming(d));
        }
    }
    match &e.blocked_domain {
        None => {
            proof {
                let t = tally_view(tally@);
                assert forall|k: int| 0 <= k < t.len() implies #[trigger] t[k].1 == hits(w2, t[k].0) by {
                    assert(hits(w2, t[k].0) == hits(w, t[k].0));
                }
            }
        },
        Some(d) => {
            let ghost old_t = tally_view(tally@);
            match tally_position(tally, d.as_str()) {
                Some(k) => {
                    let c = tally[k].1;
                    proof {
                        assert(old_t[k as int].1 == hits(w, d@));
                        assert(hits(w, d@) <= w.len());
                    }
                    let name = tally[k].0.clone();
                    tally.set(k, (name, c + 1));
                    proof {
                        let t = tally_view(tally@);
                        assert(tally_names(t) =~= tally_names(old_t));
                        assert(named_domains(w).contains(d@)) by {
                            assert(tally_names(old_t)[k as int] == d@);
                        }
                        assert(named_domains(w2) =~= named_domains(w));
                        assert forall|j: int| 0 <= j < t.len() implies #[trigger] t[j].1 == hits(w2, t[j].0) by {
                            if j != k {
                                assert(tally_names(old_t)[j] != tally_names(old_t)[k as int]);
                                assert(t[j] == old_t[j]);
                            }
                        }
                    }
                },
                None => {
                    proof {
                        assert(!named_domains(w).contains(d@)) by {
                            if named_domains(w).contains(d@) {
                                assert(tally_names(old_t).to_set().contains(d@));
                                let j = choose|j: int| 0 <= j < tally_names(old_t).len() && tally_names(old_t)[j] == d@;
                                assert(old_t[j].0 == d@);
                            }
                        }
                        lemma_no_hits(w, d@);
                    }
                    tally.push((d.clone(), 1));
                    proof {
                        let t = tally_view(tally@);
                        assert(tally_names(t) =~= tally_names(old_t).push(d@));
                        crate::sorted::lemma_push_to_set(tally_names(old_t), d@);
                        assert(!tally_names(old_t).contains(d@));
                        assert forall|j: int| 0 <= j < t.len() implies #[trigger] t[j].1 == hits(w2, t[j].0) by {
                            if j < old_t.len() {
                                assert(t[j] == old_t[j]);
                                assert(tally_names(old_t)[j] != d@);
                            }
                        }
                        assert forall|a: int, b: int| 0 <= a < tally_names(t).len() && 0 <= b < tally_names(t).len() && a != b implies tally_names(t)[a] != tally_names(t)[b] by {
                            if a < old_t.len() && b < old_t.len() {
                            } else if a < old_t.len() {
                                assert(tally_names(old_t)[a] != d@);
                            } else if b < old_t.len() {
                                assert(tally_names(old_t)[b] != d@);
                            }
                        }
                    }
                },
            }
        },
    }
}

/// Where the tally counts `d`, if it does.
fn tally_position(tally: &Vec<(String, usize)>, d: &str) -> (r: Option<usize>)
    ensures
        match r {
            Some(k) => k < tally@.len() && tally_view(tally@)[k as int].0 == d@,
            None => !tally_names(tally_view(tally@)).contains(d@),
        },
{
    let ghost t = tally_view(tally@);
    let mut i: usize = 0;
    while i < tally.len()
        invariant
            t == tally_view(tally@),
            i <= tally.len(),
            forall|k: int| 0 <= k < i ==> t[k].0 != d@,
        decreases tally.len() - i,
    {
        if crate::text::str_eq(tally[i].0.as_str(), d) {
            return Some(i);
        }
        i += 1;
    }
    proof {
        if tally_names(t).contains(d@) {
            let k = choose|k: int| 0 <= k < tally_names(t).len() && tally_names(t)[k] == d@;
            assert(t[k].0 == d@);
        }
    }
    None
}

/// A domain that no event names has no hits.
proof fn lemma_no_hits(w: Seq<EventRecord>, d: Seq<char>)
    requires
        !named_domains(w).contains(d),
    ensures
        hits(w, d) == 0,
    decreases w.len(),
{
    reveal(Seq::filter);
    if w.len() > 0 {
        assert(!names_domain(w.last(), d)) by {
            if names_domain(w.last(), d) {
                assert(names_domain(w[w.len() - 1], d));
            }
        }
        assert(!named_domains(w.drop_last()).contains(d)) by {
            if named_domains(w.drop_last()).contains(d) {
                let i = choose|i: int| 0 <= i < w.drop_last().len() && names_domain(#[trigger] w.drop_last()[i], d);
                assert(names_domain(w[i], d));
            }
        }
        lemma_no_hits(w.drop_last(), d);
    }
}


/// A tally in the order of the ranking.
pub open spec fn is_ranked(t: Seq<(Seq<char>, nat)>) -> bool {
    forall|i: int, j: int| 0 <= i < j < t.len() ==> ranked_before(#[trigger] t[i], #[trigger] t[j])
}

proof fn lemma_ranked_transitive(a: (Seq<char>, nat), b: (Seq<char>, nat), c: (Seq<char>, nat))
    requires
        ranked_before(a, b),
        ranked_before(b, c),
    ensures
        ranked_before(a, c),
{
    if a.1 == b.1 && b.1 == c.1 {
        crate::sorted::lemma_lex_transitive(a.0, b.0, c.0);
    }
}

proof fn lemma_ranked_total(a: (Seq<char>, nat), b: (Seq<char>, nat))
    requires
        a.0 != b.0,
    ensures
        ranked_before(a, b) || ranked_before(b, a),
{
    crate::sorted::lemma_lex_total(a.0, b.0);
}

fn ranks_before(a: &(String, usize), b: &(String, usize)) -> (r: bool)
    ensures
        r == ranked_before((a.0@, a.1 as nat), (b.0@, b.1 as nat)),
{
    a.1 > b.1 || (a.1 == b.1 && crate::sorted::str_less(a.0.as_str(), b.0.as_str()))
}

/// Inserts `x`, whose domain is not ranked yet, where the ranking puts it.
fn rank_insert(out: &mut Vec<(String, usize)>, x: (String, usize))
    requires
        is_ranked(tally_view(old(out)@)),
        !tally_names(tally_view(old(out)@)).contains(x.0@),
    ensures
        is_ranked(tally_view(final(out)@)),
        exists|p: int| 0 <= p <= old(out)@.len() && tally_view(final(out)@) == tally_view(old(out)@).insert(p, (x.0@, x.1 as nat)),
{
    let ghost t = tally_view(out@);
    let ghost xv = (x.0@, x.1 as nat);
    let n = out.len();
    let mut i: usize = 0;
    let mut stop = false;
    while i < n && !stop
        invariant
            n == out.len(),
            t == tally_view(out@),
            xv == (x.0@, x.1 as nat),
            i <= n,
            forall|k: int| 0 <= k < i ==> ranked_before(#[trigger] t[k], xv),
            stop ==> i < n && !ranked_before(t[i as int], xv),
        decreases n - i + (if stop { 0int } else { 1int }),
    {
        if ranks_before(&out[i], &x) {
            i += 1;
        } else {
            stop = true;
        }
    }
    proof {
        if i < n {
            assert(t[i as int].0 != xv.0) by {
                assert(tally_names(t)[i as int] == t[i as int].0);
            }
            lemma_ranked_total(t[i as int], xv);
            assert forall|k: int| i <= k < n implies ranked_before(xv, #[trigger] t[k]) by {
                if k > i {
                    lemma_ranked_transitive(xv, t[i as int], t[k]);
                }
            }
        }
    }
    out.insert(i, x);
    proof {
        let nt = tally_view(out@);
        assert(nt =~= t.insert(i as int, xv));
        assert(nt[i as int] == xv);
        assert forall|a: int, b: int| 0 <= a < b < nt.len() implies ranked_before(#[trigger] nt[a], #[trigger] nt[b]) by {
            if a < i && b < i {
            } else if a < i && b == i {
            } else if a < i && b > i {
                assert(nt[b] == t[b - 1]);
            } else if a == i {
                assert(nt[b] == t[b - 1]);
            } else {
                assert(nt[a] == t[a - 1]);
                assert(nt[b] == t[b - 1]);
            }
        }
    }
}

/// A tally of `w`, ranked.
fn rank_tally(tally: Vec<(String, usize)>, Ghost(w): Ghost<Seq<EventRecord>>) -> (r: Vec<(String, usize)>)
    requires
        is_tally(tally_view(tally@), w),
    ensures
        is_tally(tally_view(r@), w),
        is_ranked(tally_view(r@)),
{
    let ghost t = tally_view(tally@);
    let mut out: Vec<(String, usize)> = Vec::new();
    let mut j: usize = 0;
    proof {
        assert(tally_names(tally_view(out@)).to_set() =~= tally_names(t.take(0)).to_set());
    }
    while j < tally.len()
        invariant
            t == tally_view(tally@),
            is_tally(t, w),
            j <= tally.len(),
            is_ranked(tally_view(out@)),
            tally_names(tally_view(out@)).no_duplicates(),
            tally_names(tally_view(out@)).to_set() == tally_names(t.take(j as int)).to_set(),
            forall|k: int| 0 <= k < out@.len() ==> #[trigger] tally_view(out@)[k].1 == hits(w, tally_view(out@)[k].0),
        decreases tally.len() - j,
    {
        let ghost before = tally_view(out@);
        let ghost xv = t[j as int];
        proof {
            assert(!tally_names(before).contains(xv.0)) by {
                if tally_names(before).contains(xv.0) {
                    assert(tally_names(before).to_set().contains(xv.0));
                    assert(tally_names(t.take(j as int)).to_set().contains(xv.0));
                    let k = choose|k: int| 0 <= k < tally_names(t.take(j as int)).len() && tally_names(t.take(j as int))[k] == xv.0;
                    assert(tally_names(t)[k] == tally_names(t)[j as int]);
                }
            }
        }
        let name = tally[j].0.clone();
        let count = tally[j].1;
        rank_insert(&mut out, (name, count));
        proof {
            let after = tally_view(out@);
            let p = choose|p: int| 0 <= p <= before.len() && after == before.insert(p, xv);
            assert(after == before.insert(p, xv));
            assert(tally_names(after) =~= tally_names(before).insert(p, xv.0));
            assert(tally_names(t.take(j + 1)) =~= tally_names(t.take(j as int)).push(xv.0));
            crate::sorted::lemma_push_to_set(tally_names(t.take(j as int)), xv.0);
            assert(tally_names(after).to_set() =~= tally_names(before).to_set().insert(xv.0)) by {
                assert forall|e: Seq<char>| tally_names(after).to_set().contains(e) <==> tally_names(before).to_set().insert(xv.0).contains(e) by {
                    if tally_names(after).to_set().contains(e) {
                        let k = choose|k: int| 0 <= k < tally_names(after).len() && tally_names(after)[k] == e;
                        if k < p {
                            assert(tally_names(before)[k] == e);
                        } else if k > p {
                            assert(tally_names(before)[k - 1] == e);
                        }
                    }
                    if tally_names(before).to_set().contains(e) {
                        let k = choose|k: int| 0 <= k < tally_names(before).len() && tally_names(before)[k] == e;
                        if k < p {
                            assert(tally_names(after)[k] == e);
                        } else {
                            assert(tally_names(after)[k + 1] == e);
                        }
                    }
                    if e == xv.0 {
                        assert(tally_names(after)[p] == e);
                    }
                }
            }
            assert forall|a: int, b: int| 0 <= a < tally_names(after).len() && 0 <= b < tally_names(after).len() && a != b implies tally_names(after)[a] != tally_names(after)[b] by {
                let na = tally_names(after);
                let nb = tally_names(before);
                if a != p && b != p {
                    let a2 = if a < p { a } else { a - 1 };
                    let b2 = if b < p { b } else { b - 1 };
                    assert(na[a] == nb[a2]);
                    assert(na[b] == nb[b2]);
                } else if a == p {
                    let b2 = if b < p { b } else { b - 1 };
                    assert(na[b] == nb[b2]);
                } else {
                    let a2 = if a < p { a } else { a - 1 };
                    assert(na[a] == nb[a2]);
                }
            }
            assert forall|k: int| 0 <= k < after.len() implies #[trigger] after[k].1 == hits(w, after[k].0) by {
                if k < p {
                    assert(after[k] == before[k]);
                } else if k > p {
                    assert(after[k] == before[k - 1]);
                } else {
                    assert(after[k] == xv);
                }
            }
        }
        j += 1;
    }
    proof {
        assert(t.take(tally.len() as int) =~= t);
    }
    out
}

/// The instant of the last `Enable` event, searching from the end of the log.
fn find_last_enable(items: &Vec<EventRecord>) -> (r: Option<Timestamp>)
    ensures
        r == last_enable_at(items@),
{
    let mut j = items.len();
    proof {
        assert(items@.take(j as int) =~= items@);
    }
    while j > 0
        invariant
            j <= items.len(),
            last_enable_at(items@) == last_enable_at(items@.take(j as int)),
        decreases j,
    {
        let ghost pre = items@.take(j as int);
        assert(pre.last() == items@[j - 1]);
        assert(pre.drop_last() =~= items@.take(j - 1));
        if items[j - 1].kind == EventKind::Enable {
            return Some(items[j - 1].timestamp);
        }
        j -= 1;
    }
    proof {
        assert(items@.take(0) =~= Seq::<EventRecord>::empty());
    }
    None
}

/// What the log says about blocking since protection was last enabled: how many queries
/// were blocked, for how many domains, when the last one was, and the domains ranked by
/// how often they were blocked (then by name). Nothing counts when protection was never
/// enabled.
pub fn block_activity(items: &Vec<EventRecord>) -> (r: BlockActivitySummary)
    ensures
        ({
            let w = activity_window(items@);
            &&& r.blocked_since_activation == w.len()
            &&& r.last_blocked_at == (if w.len() == 0 { None } else { Some(w.last().timestamp) })
            &&& r.unique_blocked_domains == named_domains(w).len()
            &&& is_tally(tally_view(r.top_blocked_domains@), w)
            &&& is_ranked(tally_view(r.top_blocked_domains@))
        }),
{
    let since = find_last_enable(items);
    let ghost keep = window_filter(since);
    let mut tally: Vec<(String, usize)> = Vec::new();
    let mut count: usize = 0;
    let mut last: Option<Timestamp> = None;
    let mut i: usize = 0;
    proof {
        reveal(Seq::filter);
        assert(items@.take(0) =~= Seq::<EventRecord>::empty());
        assert(named_domains(Seq::<EventRecord>::empty()) =~= Set::<Seq<char>>::empty());
        assert(tally_names(tally_view(tally@)).to_set() =~= Set::<Seq<char>>::empty());
    }
    while i < items.len()
        invariant
            since == last_enable_at(items@),
            keep == window_filter(since),
            i <= items.len(),
            count == items@.take(i as int).filter(keep).len(),
            last == (if count == 0 { None } else { Some(items@.take(i as int).filter(keep).last().timestamp) }),
            is_tally(tally_view(tally@), items@.take(i as int).filter(keep)),
        decreases items.len() - i,
    {
        let ghost wi = items@.take(i as int).filter(keep);
        let e = &items[i];
        proof {
            assert(items@.take(i + 1) =~= items@.take(i as int).push(*e));
            crate::text::lemma_filter_push(items@.take(i as int), *e, keep);
            items@.take(i as int).lemma_filter_len(keep);
        }
        let in_range = match since {
            Some(t) => e.timestamp.is_at_or_after(&t),
            None => false,
        };
        if e.kind == EventKind::BlockedDomain && in_range {
            count_event(&mut tally, e, Ghost(wi));
            count += 1;
            last = Some(e.timestamp);
        }
        i += 1;
    }
    proof {
        assert(items@.take(items.len() as int) =~= items@);
    }
    let ghost w = activity_window(items@);
    let unique = tally.len();
    proof {
        let names = tally_names(tally_view(tally@));
        names.unique_seq_to_set();
    }
    let ranked = rank_tally(tally, Ghost(w));
    BlockActivitySummary {
        blocked_since_activation: count,
        unique_blocked_domains: unique,
        last_blocked_at: last,
        top_blocked_domains: ranked,
    }
}

} // verus!
