//! The schema inventory: the directory entries of a namespace, in one order
//! that depends on the entries alone.
use vstd::prelude::*;
use vstd::string::StrSliceExecFns;

verus! {

/// Lexicographic order of character sequences, by code point.
pub open spec fn name_lt(a: Seq<char>, b: Seq<char>) -> bool
    decreases a.len(),
{
    if a.len() == 0 {
        b.len() > 0
    } else if b.len() == 0 {
        false
    } else if a[0] != b[0] {
        a[0] < b[0]
    } else {
        name_lt(a.drop_first(), b.drop_first())
    }
}

/// Strictly increasing, hence without repeats.
pub open spec fn strictly_sorted(s: Seq<Seq<char>>) -> bool {
    forall|i: int, j: int| 0 <= i < j < s.len() ==> name_lt(#[trigger] s[i], #[trigger] s[j])
}

/// What a listing of the entries is: the same names, each once, in order.
pub open spec fn is_listing(entries: Seq<Seq<char>>, r: Seq<Seq<char>>) -> bool {
    &&& strictly_sorted(r)
    &&& forall|x: Seq<char>| r.contains(x) <==> entries.contains(x)
}

pub proof fn lemma_lt_irreflexive(a: Seq<char>)
    ensures
        !name_lt(a, a),
    decreases a.len(),
{
    if a.len() > 0 {
        lemma_lt_irreflexive(a.drop_first());
    }
}

pub proof fn lemma_lt_transitive(a: Seq<char>, b: Seq<char>, c: Seq<char>)
    requires
        name_lt(a, b),
        name_lt(b, c),
    ensures
        name_lt(a, c),
    decreases a.len(),
{
    if a.len() > 0 && b.len() > 0 && c.len() > 0 && a[0] == b[0] && b[0] == c[0] {
        lemma_lt_transitive(a.drop_first(), b.drop_first(), c.drop_first());
    }
}

pub proof fn lemma_lt_total(a: Seq<char>, b: Seq<char>)
    requires
        a != b,
    ensures
        name_lt(a, b) || name_lt(b, a),
    decreases a.len(),
{
    if a.len() > 0 && b.len() > 0 && a[0] == b[0] {
        if a.drop_first() == b.drop_first() {
            assert(a =~= seq![a[0]] + a.drop_first());
            assert(b =~= seq![b[0]] + b.drop_first());
        }
        lemma_lt_total(a.drop_first(), b.drop_first());
    } else if a.len() > 0 && b.len() > 0 {
    } else if a.len() == 0 && b.len() == 0 {
        assert(a =~= b);
    }
}

/// Two listings of entries with the same names are the same sequence: the
/// order does not depend on the order in which the entries came.
pub proof fn law_listing_deterministic(
    e1: Seq<Seq<char>>,
    e2: Seq<Seq<char>>,
    r1: Seq<Seq<char>>,
    r2: Seq<Seq<char>>,
)
    requires
        forall|x: Seq<char>| e1.contains(x) <==> e2.contains(x),
        is_listing(e1, r1),
        is_listing(e2, r2),
    ensures
        r1 == r2,
{
    lemma_sorted_unique(r1, r2);
}

proof fn lemma_sorted_unique(s1: Seq<Seq<char>>, s2: Seq<Seq<char>>)
    requires
        strictly_sorted(s1),
        strictly_sorted(s2),
        forall|x: Seq<char>| s1.contains(x) <==> s2.contains(x),
    ensures
        s1 == s2,
    decreases s1.len(),
{
    if s1.len() == 0 {
        if s2.len() > 0 {
            assert(s2.contains(s2[0]));
        }
        assert(s1 =~= s2);
    } else {
        assert(s1.contains(s1[0]));
        assert(s2.len() > 0);
        assert(s2.contains(s2[0]));
        let j = choose|j: int| 0 <= j < s2.len() && s2[j] == s1[0];
        let k = choose|k: int| 0 <= k < s1.len() && s1[k] == s2[0];
        if j > 0 {
            assert(name_lt(s2[0], s2[j]));
            if k > 0 {
                assert(name_lt(s1[0], s1[k]));
                lemma_lt_transitive(s1[0], s2[0], s1[0]);
            }
            lemma_lt_irreflexive(s1[0]);
        }
        assert(s1[0] == s2[0]);
        let t1 = s1.drop_first();
        let t2 = s2.drop_first();
        assert forall|x: Seq<char>| t1.contains(x) implies t2.contains(x) by {
            let a = choose|a: int| 0 <= a < t1.len() && t1[a] == x;
            assert(s1[a + 1] == x);
            assert(name_lt(s1[0], s1[a + 1]));
            lemma_lt_irreflexive(x);
            assert(s1.contains(x));
            let b = choose|b: int| 0 <= b < s2.len() && s2[b] == x;
            assert(b != 0);
            assert(t2[b - 1] == x);
        }
        assert forall|x: Seq<char>| t2.contains(x) implies t1.contains(x) by {
            let a = choose|a: int| 0 <= a < t2.len() && t2[a] == x;
            assert(s2[a + 1] == x);
            assert(name_lt(s2[0], s2[a + 1]));
            lemma_lt_irreflexive(x);
            assert(s2.contains(x));
            let b = choose|b: int| 0 <= b < s1.len() && s1[b] == x;
            assert(b != 0);
            assert(t1[b - 1] == x);
        }
        lemma_sorted_unique(t1, t2);
        assert(s1 =~= seq![s1[0]] + t1);
        assert(s2 =~= seq![s2[0]] + t2);
    }
}

/// Whether `a` orders before `b`.
pub fn name_less(a: &str, b: &str) -> (r: bool)
    ensures
        r == name_lt(a@, b@),
{
    let la = a.unicode_len();
    let lb = b.unicode_len();
    let mut i: usize = 0;
    assert(a@.skip(0) =~= a@);
    assert(b@.skip(0) =~= b@);
    while i < la && i < lb
        invariant
            i <= la,
            i <= lb,
            la == a@.len(),
            lb == b@.len(),
            name_lt(a@, b@) == name_lt(a@.skip(i as int), b@.skip(i as int)),
        decreases la - i,
    {
        let ca = a.get_char(i);
        let cb = b.get_char(i);
        if ca != cb {
            return ca < cb;
        }
        assert(a@.skip(i as int).drop_first() =~= a@.skip(i + 1));
        assert(b@.skip(i as int).drop_first() =~= b@.skip(i + 1));
        i += 1;
    }
    i < lb
}

pub open spec fn names_view(v: Seq<String>) -> Seq<Seq<char>> {
    v.map_values(|s: String| s@)
}

/// Lists the schema entries of a directory: every name once, in increasing
/// order, whatever the order in which the directory gave them.
pub fn list_schemas(entries: &Vec<String>) -> (r: Vec<String>)
    ensures
        is_listing(names_view(entries@), names_view(r@)),
{
    let ghost ev = names_view(entries@);
    let mut r: Vec<String> = Vec::new();
    let mut i: usize = 0;
    while i < entries.len()
        invariant
            i <= entries.len(),
            ev == names_view(entries@),
            strictly_sorted(names_view(r@)),
            forall|x: Seq<char>| names_view(r@).contains(x) <==> ev.take(i as int).contains(x),
        decreases entries.len() - i,
    {
        let e = &entries[i];
        let ghost rv = names_view(r@);
        let mut p: usize = 0;
        while p < r.len() && name_less(r[p].as_str(), e.as_str())
            invariant
                p <= r.len(),
                rv == names_view(r@),
                forall|k: int| 0 <= k < p ==> name_lt(#[trigger] rv[k], e@),
            decreases r.len() - p,
        {
            p += 1;
        }
        let ghost t0 = ev.take(i as int);
        let ghost t1 = ev.take(i + 1);
        assert(t1 =~= t0.push(e@));
        if p < r.len() && r[p] == *e {
            assert(rv[p as int] == e@);
            assert forall|x: Seq<char>| rv.contains(x) <==> ev.take(i + 1).contains(x) by {
                if x == e@ {
                    assert(rv.contains(rv[p as int]));
                    assert(ev.take(i + 1)[i as int] == e@);
                }
                if ev.take(i + 1).contains(x) && x != e@ {
                    let k = choose|k: int| 0 <= k < t1.len() && t1[k] == x;
                    assert(ev.take(i as int)[k] == x);
                }
            }
        } else {
            if p < r.len() {
                assert(!name_lt(rv[p as int], e@));
                assert(rv[p as int] != e@);
                proof {
                    lemma_lt_total(rv[p as int], e@);
                }
            }
            r.insert(p, e.clone());
            let ghost nv = names_view(r@);
            assert(nv =~= rv.insert(p as int, e@));
            assert forall|a: int, b: int| 0 <= a < b < nv.len() implies name_lt(
                #[trigger] nv[a],
                #[trigger] nv[b],
            ) by {
                if b == p {
                    assert(name_lt(rv[a], e@));
                } else if a == p {
                    assert(name_lt(e@, rv[p as int]));
                    if b - 1 > p {
                        assert(name_lt(rv[p as int], rv[b - 1]));
                        lemma_lt_transitive(e@, rv[p as int], rv[b - 1]);
                    }
                } else if a < p && b < p {
                    assert(name_lt(rv[a], rv[b]));
                } else if a < p {
                    assert(name_lt(rv[a], rv[b - 1]));
                } else {
                    assert(name_lt(rv[a - 1], rv[b - 1]));
                }
            }
            assert forall|x: Seq<char>| nv.contains(x) <==> ev.take(i + 1).contains(x) by {
                if x == e@ {
                    assert(nv[p as int] == e@);
                    assert(ev.take(i + 1)[i as int] == e@);
                }
                if nv.contains(x) && x != e@ {
                    let k = choose|k: int| 0 <= k < nv.len() && nv[k] == x;
                    if k < p {
                        assert(rv[k] == x);
                    } else {
                        assert(rv[k - 1] == x);
                    }
                    assert(rv.contains(x));
                }
                if rv.contains(x) {
                    let k = choose|k: int| 0 <= k < rv.len() && rv[k] == x;
                    if k < p {
                        assert(nv[k] == x);
                    } else {
                        assert(nv[k + 1] == x);
                    }
                }
                if ev.take(i + 1).contains(x) && x != e@ {
                    let k = choose|k: int| 0 <= k < t1.len() && t1[k] == x;
                    assert(ev.take(i as int)[k] == x);
                }
                if ev.take(i as int).contains(x) {
                    let k = choose|k: int| 0 <= k < t0.len() && t0[k] == x;
                    assert(ev.take(i + 1)[k] == x);
                }
            }
        }
        i += 1;
    }
    assert(ev.take(i as int) =~= ev);
    r
}

} // verus!
