//! Lexicographic order on strings and a verified string sort.
//!
//! Strings are compared character by character by code point, a proper
//! prefix coming first. For UTF-8 strings this is the order of their bytes,
//! the order in which `Ord for String` sorts.

use vstd::prelude::*;

verus! {

broadcast use vstd::seq_lib::group_to_multiset_ensures;

/// `a` comes before `b`, and they first differ at position `k`: either `a`
/// ends there while `b` goes on, or both go on and `a`'s character there is
/// the smaller one.
pub open spec fn lex_lt_at(a: Seq<char>, b: Seq<char>, k: int) -> bool {
    &&& 0 <= k <= a.len()
    &&& k <= b.len()
    &&& forall|j: int| 0 <= j < k ==> #[trigger] a[j] == #[trigger] b[j]
    &&& ((k == a.len() && k < b.len()) || (k < a.len() && k < b.len() && (a[k] as int) < (b[k] as int)))
}

/// `a` comes strictly before `b` in lexicographic order.
pub open spec fn lex_lt(a: Seq<char>, b: Seq<char>) -> bool {
    exists|k: int| lex_lt_at(a, b, k)
}

/// `a` comes before `b` or equals it.
pub open spec fn lex_le(a: Seq<char>, b: Seq<char>) -> bool {
    a == b || lex_lt(a, b)
}

/// Every string of the sequence comes before or equals every later one.
pub open spec fn sorted_lex(s: Seq<Seq<char>>) -> bool {
    forall|i: int, j: int| 0 <= i < j < s.len() ==> lex_le(#[trigger] s[i], #[trigger] s[j])
}

/// The characters of each string of a vector.
pub open spec fn string_views(v: Seq<String>) -> Seq<Seq<char>> {
    v.map_values(|s: String| s@)
}

/// Views of a vector after a push: the old views and the new string's.
pub proof fn lemma_string_views_push(s: Seq<String>, x: String)
    ensures
        string_views(s.push(x)) == string_views(s).push(x@),
{
    assert(string_views(s.push(x)) =~= string_views(s).push(x@));
}

/// Views of a prefix one longer than another.
pub proof fn lemma_string_views_take_succ(s: Seq<String>, i: int)
    requires
        0 <= i < s.len(),
    ensures
        string_views(s.take(i + 1)) == string_views(s.take(i)).push(s[i]@),
{
    assert(s.take(i + 1) =~= s.take(i).push(s[i]));
    lemma_string_views_push(s.take(i), s[i]);
}

/// No string comes strictly before itself.
pub proof fn lemma_lex_lt_irreflexive(a: Seq<char>)
    ensures
        !lex_lt(a, a),
{
}

proof fn lemma_lex_total_from(a: Seq<char>, b: Seq<char>, i: int)
    requires
        0 <= i <= a.len(),
        i <= b.len(),
        forall|j: int| 0 <= j < i ==> a[j] == b[j],
        a != b,
    ensures
        lex_lt(a, b) || lex_lt(b, a),
    decreases a.len() - i,
{
    if i == a.len() && i == b.len() {
        assert(a =~= b);
    } else if i == a.len() {
        assert(lex_lt_at(a, b, i));
    } else if i == b.len() {
        assert(lex_lt_at(b, a, i));
    } else if (a[i] as int) < (b[i] as int) {
        assert(lex_lt_at(a, b, i));
    } else if (b[i] as int) < (a[i] as int) {
        assert(lex_lt_at(b, a, i));
    } else {
        assert(a[i] == b[i]);
        lemma_lex_total_from(a, b, i + 1);
    }
}

/// Any two different strings are ordered one way or the other.
pub proof fn lemma_lex_total(a: Seq<char>, b: Seq<char>)
    ensures
        a != b ==> lex_lt(a, b) || lex_lt(b, a),
        !lex_lt(a, b) ==> lex_le(b, a),
{
    if a != b {
        lemma_lex_total_from(a, b, 0);
    }
}

/// The order is transitive.
pub proof fn lemma_lex_lt_trans(a: Seq<char>, b: Seq<char>, c: Seq<char>)
    requires
        lex_lt(a, b),
        lex_lt(b, c),
    ensures
        lex_lt(a, c),
{
    let k1 = choose|k: int| lex_lt_at(a, b, k);
    let k2 = choose|k: int| lex_lt_at(b, c, k);
    if k1 < k2 {
        assert forall|j: int| 0 <= j < k1 implies #[trigger] a[j] == #[trigger] c[j] by {
            assert(a[j] == b[j]);
            assert(b[j] == c[j]);
        }
        if k1 < a.len() {
            assert(b[k1] == c[k1]);
        }
        assert(lex_lt_at(a, c, k1));
    } else if k2 < k1 {
        assert forall|j: int| 0 <= j < k2 implies #[trigger] a[j] == #[trigger] c[j] by {
            assert(a[j] == b[j]);
            assert(b[j] == c[j]);
        }
        assert(a[k2] == b[k2]);
        assert(lex_lt_at(a, c, k2));
    } else {
        assert forall|j: int| 0 <= j < k1 implies #[trigger] a[j] == #[trigger] c[j] by {
            assert(a[j] == b[j]);
            assert(b[j] == c[j]);
        }
        assert(lex_lt_at(a, c, k1));
    }
}

/// Strictly before, then before-or-equal, gives strictly before.
pub proof fn lemma_lex_lt_le_trans(a: Seq<char>, b: Seq<char>, c: Seq<char>)
    requires
        lex_lt(a, b),
        lex_le(b, c),
    ensures
        lex_lt(a, c),
{
    if b != c {
        lemma_lex_lt_trans(a, b, c);
    }
}

/// Two strings each before-or-equal the other are equal.
pub proof fn lemma_lex_antisymmetric(a: Seq<char>, b: Seq<char>)
    requires
        lex_le(a, b),
        lex_le(b, a),
    ensures
        a == b,
{
    if a != b {
        lemma_lex_lt_trans(a, b, a);
        lemma_lex_lt_irreflexive(a);
    }
}

/// Whether `a` comes strictly before `b`.
pub fn str_lex_lt(a: &str, b: &str) -> (lt: bool)
    ensures
        lt == lex_lt(a@, b@),
{
    let na = a.unicode_len();
    let nb = b.unicode_len();
    let mut i: usize = 0;
    while i < na && i < nb && a.get_char(i) == b.get_char(i)
        invariant
            na == a@.len(),
            nb == b@.len(),
            i <= na,
            i <= nb,
            forall|j: int| 0 <= j < i ==> a@[j] == b@[j],
        decreases na - i,
    {
        i = i + 1;
    }
    if i == nb {
        proof {
            assert forall|k: int| !lex_lt_at(a@, b@, k) by {
                if lex_lt_at(a@, b@, k) {
                    if k < i {
                        assert(a@[k] == b@[k]);
                    }
                }
            }
        }
        false
    } else if i == na {
        proof {
            assert(lex_lt_at(a@, b@, i as int));
        }
        true
    } else {
        let ca = a.get_char(i);
        let cb = b.get_char(i);
        let lt = (ca as u32) < (cb as u32);
        proof {
            if lt {
                assert(lex_lt_at(a@, b@, i as int));
            } else {
                assert forall|k: int| !lex_lt_at(a@, b@, k) by {
                    if lex_lt_at(a@, b@, k) {
                        if k < i {
                            assert(a@[k] == b@[k]);
                        } else if k > i {
                            assert(a@[i as int] == b@[i as int]);
                        }
                    }
                }
            }
        }
        lt
    }
}

/// The strings of `v` in lexicographic order (insertion sort).
pub fn sort_strings(v: &Vec<String>) -> (r: Vec<String>)
    ensures
        sorted_lex(string_views(r@)),
        string_views(r@).to_multiset() == string_views(v@).to_multiset(),
        r@.len() == v@.len(),
{
    let mut out: Vec<String> = Vec::new();
    for i in 0..v.len()
        invariant
            sorted_lex(string_views(out@)),
            string_views(out@).to_multiset() == string_views(v@.take(i as int)).to_multiset(),
            out@.len() == i,
    {
        let x = v[i].clone();
        let mut p: usize = 0;
        while p < out.len() && !str_lex_lt(x.as_str(), out[p].as_str())
            invariant
                p <= out@.len(),
                forall|q: int| 0 <= q < p ==> !lex_lt(x@, #[trigger] out@[q]@),
            decreases out@.len() - p,
        {
            p = p + 1;
        }
        let ghost old_views = string_views(out@);
        out.insert(p, x);
        proof {
            let nv = string_views(out@);
            assert(nv =~= old_views.insert(p as int, x@));
            assert(p < old_views.len() ==> lex_lt(x@, old_views[p as int]));
            assert forall|a: int, b: int| 0 <= a < b < nv.len() implies lex_le(
                #[trigger] nv[a],
                #[trigger] nv[b],
            ) by {
                if b < p {
                    assert(nv[a] == old_views[a] && nv[b] == old_views[b]);
                } else if b == p {
                    assert(nv[a] == old_views[a]);
                    assert(!lex_lt(x@, out@[a]@));
                    lemma_lex_total(x@, old_views[a]);
                } else if a == p {
                    assert(nv[b] == old_views[b - 1]);
                    if b - 1 > p {
                        assert(lex_le(old_views[p as int], old_views[b - 1]));
                    }
                    lemma_lex_lt_le_trans(x@, old_views[p as int], old_views[b - 1]);
                } else if a < p {
                    assert(nv[a] == old_views[a]);
                    assert(nv[b] == old_views[b - 1]);
                } else {
                    assert(nv[a] == old_views[a - 1]);
                    assert(nv[b] == old_views[b - 1]);
                }
            }
            vstd::seq_lib::to_multiset_insert(old_views, p as int, x@);
            assert(v@.take(i + 1) =~= v@.take(i as int).push(v@[i as int]));
            assert(string_views(v@.take(i + 1)) =~= string_views(v@.take(i as int)).push(x@));
        }
    }
    proof {
        assert(v@.take(v@.len() as int) =~= v@);
    }
    out
}

} // verus!
