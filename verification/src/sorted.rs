//! Strings in std's order, and sorted lists of distinct strings (what a `BTreeSet<String>`
//! holds, in the order it yields them).
use vstd::prelude::*;

use crate::text::{chars_of, views};

verus! {

/// std's order on strings. std compares the UTF-8 bytes; UTF-8 keeps the order of code
/// points, so this is the order of the characters, a proper prefix coming first.
pub open spec fn lex_lt(a: Seq<char>, b: Seq<char>) -> bool
    decreases a.len(),
{
    if a.len() == 0 {
        b.len() > 0
    } else if b.len() == 0 {
        false
    } else if a[0] != b[0] {
        a[0] < b[0]
    } else {
        lex_lt(a.drop_first(), b.drop_first())
    }
}

pub proof fn lemma_lex_irreflexive(a: Seq<char>)
    ensures
        !lex_lt(a, a),
    decreases a.len(),
{
    if a.len() > 0 {
        lemma_lex_irreflexive(a.drop_first());
    }
}

pub proof fn lemma_lex_asymmetric(a: Seq<char>, b: Seq<char>)
    ensures
        !(lex_lt(a, b) && lex_lt(b, a)),
    decreases a.len(),
{
    if a.len() > 0 && b.len() > 0 && a[0] == b[0] {
        lemma_lex_asymmetric(a.drop_first(), b.drop_first());
    }
}

pub proof fn lemma_lex_transitive(a: Seq<char>, b: Seq<char>, c: Seq<char>)
    requires
        lex_lt(a, b),
        lex_lt(b, c),
    ensures
        lex_lt(a, c),
    decreases a.len(),
{
    if a.len() > 0 && b.len() > 0 && c.len() > 0 && a[0] == b[0] && b[0] == c[0] {
        lemma_lex_transitive(a.drop_first(), b.drop_first(), c.drop_first());
    }
}

pub proof fn lemma_lex_total(a: Seq<char>, b: Seq<char>)
    requires
        a != b,
    ensures
        lex_lt(a, b) || lex_lt(b, a),
    decreases a.len(),
{
    if a.len() == 0 {
        assert(b.len() > 0) by {
            if b.len() == 0 {
                assert(a =~= b);
            }
        }
    } else if b.len() > 0 && a[0] == b[0] {
        if a.drop_first() == b.drop_first() {
            assert(a =~= seq![a[0]] + a.drop_first());
            assert(b =~= seq![b[0]] + b.drop_first());
        }
        lemma_lex_total(a.drop_first(), b.drop_first());
    }
}

/// The order after a common prefix of length `i` is the order of what follows it.
proof fn lemma_lex_skip(a: Seq<char>, b: Seq<char>, i: int)
    requires
        0 <= i <= a.len(),
        i <= b.len(),
        a.subrange(0, i) == b.subrange(0, i),
    ensures
        lex_lt(a, b) == lex_lt(a.subrange(i, a.len() as int), b.subrange(i, b.len() as int)),
    decreases i,
{
    if i > 0 {
        assert(a[0] == a.subrange(0, i)[0]);
        assert(b[0] == b.subrange(0, i)[0]);
        assert(a.drop_first().subrange(0, i - 1) =~= a.subrange(0, i).drop_first());
        assert(b.drop_first().subrange(0, i - 1) =~= b.subrange(0, i).drop_first());
        lemma_lex_skip(a.drop_first(), b.drop_first(), i - 1);
        assert(a.drop_first().subrange(i - 1, a.len() - 1) =~= a.subrange(i, a.len() as int));
        assert(b.drop_first().subrange(i - 1, b.len() - 1) =~= b.subrange(i, b.len() as int));
    } else {
        assert(a.subrange(0, a.len() as int) =~= a);
        assert(b.subrange(0, b.len() as int) =~= b);
    }
}

/// `a` comes before `b` in std's order on strings.
pub fn str_less(a: &str, b: &str) -> (r: bool)
    ensures
        r == lex_lt(a@, b@),
{
    let x = chars_of(a);
    let y = chars_of(b);
    let mut i: usize = 0;
    while i < x.len() && i < y.len()
        invariant
            x@ == a@,
            y@ == b@,
            i <= x.len(),
            i <= y.len(),
            x@.subrange(0, i as int) == y@.subrange(0, i as int),
        decreases x.len() - i,
    {
        if x[i] != y[i] {
            proof {
                lemma_lex_skip(x@, y@, i as int);
                let xs = x@.subrange(i as int, x@.len() as int);
                let ys = y@.subrange(i as int, y@.len() as int);
                assert(xs[0] == x@[i as int]);
                assert(ys[0] == y@[i as int]);
                assert(xs.len() > 0 && ys.len() > 0 && xs[0] != ys[0]);
                assert(lex_lt(xs, ys) == (xs[0] < ys[0]));
            }
            let cx = x[i];
            let cy = y[i];
            let less = cx < cy;
            assert(less == (cx < cy));
            assert(cx == x@[i as int]);
            return less;
        }
        assert(x@.subrange(0, i + 1) =~= x@.subrange(0, i as int).push(x@[i as int]));
        assert(y@.subrange(0, i + 1) =~= y@.subrange(0, i as int).push(y@[i as int]));
        i += 1;
    }
    proof {
        lemma_lex_skip(x@, y@, i as int);
        assert(x@.subrange(i as int, x@.len() as int).len() == x@.len() - i);
    }
    i == x.len() && i < y.len()
}

/// Strictly increasing in std's order: sorted, nothing twice.
pub open spec fn strictly_sorted(s: Seq<Seq<char>>) -> bool {
    forall|i: int, j: int| 0 <= i < j < s.len() ==> lex_lt(#[trigger] s[i], #[trigger] s[j])
}

/// Two strictly sorted lists with the same elements are the same list.
pub proof fn lemma_sorted_unique(a: Seq<Seq<char>>, b: Seq<Seq<char>>)
    requires
        strictly_sorted(a),
        strictly_sorted(b),
        a.to_set() == b.to_set(),
    ensures
        a == b,
    decreases a.len() + b.len(),
{
    if a.len() == 0 {
        if b.len() > 0 {
            assert(b.to_set().contains(b[0]));
            assert(!a.to_set().contains(b[0]));
        }
        assert(a =~= b);
    } else if b.len() == 0 {
        assert(a.to_set().contains(a[0]));
        assert(!b.to_set().contains(a[0]));
    } else {
        // the last elements are both the greatest element
        let x = a.last();
        let y = b.last();
        assert(a.to_set().contains(x));
        assert(b.to_set().contains(y));
        assert(b.to_set().contains(x));
        assert(a.to_set().contains(y));
        let ix = choose|k: int| 0 <= k < b.len() && b[k] == x;
        let iy = choose|k: int| 0 <= k < a.len() && a[k] == y;
        if x != y {
            lemma_lex_total(x, y);
            if lex_lt(x, y) {
                // y sits in a before x's position, so y < x
                if iy < a.len() - 1 {
                    lemma_lex_asymmetric(y, x);
                } else {
                    assert(a[iy] == x);
                }
            } else {
                if ix < b.len() - 1 {
                    lemma_lex_asymmetric(x, y);
                } else {
                    assert(b[ix] == y);
                }
            }
        }
        assert(x == y);
        let a2 = a.drop_last();
        let b2 = b.drop_last();
        assert forall|e: Seq<char>| a2.to_set().contains(e) implies b2.to_set().contains(e) by {
            let k = choose|k: int| 0 <= k < a2.len() && a2[k] == e;
            assert(a.to_set().contains(e));
            assert(e != x) by {
                lemma_lex_irreflexive(x);
            }
            let m = choose|m: int| 0 <= m < b.len() && b[m] == e;
            assert(m < b.len() - 1);
            assert(b2[m] == e);
        }
        assert forall|e: Seq<char>| b2.to_set().contains(e) implies a2.to_set().contains(e) by {
            let k = choose|k: int| 0 <= k < b2.len() && b2[k] == e;
            assert(b.to_set().contains(e));
            assert(e != y) by {
                lemma_lex_irreflexive(y);
            }
            let m = choose|m: int| 0 <= m < a.len() && a[m] == e;
            assert(m < a.len() - 1);
            assert(a2[m] == e);
        }
        assert(a2.to_set() =~= b2.to_set());
        lemma_sorted_unique(a2, b2);
        assert(a =~= a2.push(x));
        assert(b =~= b2.push(y));
    }
}

/// Inserts `x` into the strictly sorted list `v`, unless it is already there.
pub fn insert_sorted(v: &mut Vec<String>, x: String)
    requires
        strictly_sorted(views(old(v)@)),
    ensures
        strictly_sorted(views(final(v)@)),
        views(final(v)@).to_set() == views(old(v)@).to_set().insert(x@),
{
    let ghost old_views = views(v@);
    let n = v.len();
    let mut i: usize = 0;
    let mut stop = false;
    while i < n && !stop
        invariant
            n == v.len(),
            views(v@) == old_views,
            i <= n,
            forall|k: int| 0 <= k < i ==> lex_lt(#[trigger] old_views[k], x@),
            stop ==> i < n && !lex_lt(old_views[i as int], x@),
        decreases n - i + (if stop { 0int } else { 1int }),
    {
        if str_less(v[i].as_str(), x.as_str()) {
            i += 1;
        } else {
            stop = true;
        }
    }
    if i < n && crate::text::str_eq(v[i].as_str(), x.as_str()) {
        proof {
            assert(old_views[i as int] == x@);
            assert(old_views.to_set().insert(x@) =~= old_views.to_set());
        }
        return;
    }
    proof {
        if i < n {
            assert(!lex_lt(old_views[i as int], x@));
            assert(old_views[i as int] != x@);
            lemma_lex_total(old_views[i as int], x@);
            assert(lex_lt(x@, old_views[i as int]));
            assert forall|k: int| i <= k < n implies lex_lt(x@, #[trigger] old_views[k]) by {
                if k > i {
                    lemma_lex_transitive(x@, old_views[i as int], old_views[k]);
                }
            }
        }
    }
    v.insert(i, x);
    proof {
        let nv = views(v@);
        assert(nv =~= old_views.insert(i as int, x@));
        assert forall|a: int, b: int| 0 <= a < b < nv.len() implies lex_lt(#[trigger] nv[a], #[trigger] nv[b]) by {
            if a < i && b < i {
            } else if a < i && b == i {
            } else if a < i && b > i {
                assert(nv[b] == old_views[b - 1]);
            } else if a == i {
                assert(nv[b] == old_views[b - 1]);
            } else {
                assert(nv[a] == old_views[a - 1]);
                assert(nv[b] == old_views[b - 1]);
            }
        }
        assert forall|e: Seq<char>| nv.to_set().contains(e) <==> old_views.to_set().insert(x@).contains(e) by {
            if nv.to_set().contains(e) {
                let k = choose|k: int| 0 <= k < nv.len() && nv[k] == e;
                if k < i {
                    assert(old_views[k] == e);
                } else if k > i {
                    assert(old_views[k - 1] == e);
                }
            }
            if old_views.to_set().contains(e) {
                let k = choose|k: int| 0 <= k < old_views.len() && old_views[k] == e;
                if k < i {
                    assert(nv[k] == e);
                } else {
                    assert(nv[k + 1] == e);
                }
            }
            if e == x@ {
                assert(nv[i as int] == e);
            }
        }
        assert(nv.to_set() =~= old_views.to_set().insert(x@));
    }
}

/// The distinct strings of `items`, sorted (what collecting them into a `BTreeSet` and
/// iterating it yields).
pub fn sorted_distinct(items: Vec<String>) -> (r: Vec<String>)
    ensures
        strictly_sorted(views(r@)),
        views(r@).to_set() == views(items@).to_set(),
{
    let mut r: Vec<String> = Vec::new();
    let ghost all = views(items@);
    let mut i: usize = 0;
    assert(views(r@).to_set() =~= all.take(0).to_set());
    while i < items.len()
        invariant
            all == views(items@),
            i <= items.len(),
            strictly_sorted(views(r@)),
            views(r@).to_set() == all.take(i as int).to_set(),
        decreases items.len() - i,
    {
        insert_sorted(&mut r, items[i].clone());
        proof {
            assert(all.take(i + 1) =~= all.take(i as int).push(all[i as int]));
            lemma_push_to_set(all.take(i as int), all[i as int]);
        }
        i += 1;
    }
    assert(all.take(items.len() as int) =~= all);
    r
}

pub proof fn lemma_push_to_set(s: Seq<Seq<char>>, x: Seq<char>)
    ensures
        s.push(x).to_set() == s.to_set().insert(x),
{
    assert forall|e: Seq<char>| s.push(x).to_set().contains(e) <==> s.to_set().insert(x).contains(e) by {
        if s.push(x).to_set().contains(e) {
            let k = choose|k: int| 0 <= k < s.push(x).len() && s.push(x)[k] == e;
            if k < s.len() {
                assert(s[k] == e);
            }
        }
        if s.to_set().contains(e) {
            let k = choose|k: int| 0 <= k < s.len() && s[k] == e;
            assert(s.push(x)[k] == e);
        }
        if e == x {
            assert(s.push(x)[s.len() as int] == e);
        }
    }
    assert(s.push(x).to_set() =~= s.to_set().insert(x));
}

/// A strictly sorted list is its own sorted distinct list.
pub proof fn lemma_sorted_distinct_fixed(s: Seq<Seq<char>>, r: Seq<Seq<char>>)
    requires
        strictly_sorted(s),
        strictly_sorted(r),
        r.to_set() == s.to_set(),
    ensures
        r == s,
{
    lemma_sorted_unique(r, s);
}

} // verus!
