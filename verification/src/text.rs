//! Small verified text helpers.

use vstd::prelude::*;

verus! {

/// Character-by-character equality of two string slices.
pub fn str_eq(a: &str, b: &str) -> (r: bool)
    ensures
        r == (a@ == b@),
{
    let n = a.unicode_len();
    let m = b.unicode_len();
    if n != m {
        return false;
    }
    let mut i: usize = 0;
    while i < n
        invariant
            0 <= i <= n,
            n == a@.len(),
            n == b@.len(),
            forall|j: int| 0 <= j < i ==> a@[j] == b@[j],
        decreases n - i,
    {
        if a.get_char(i) != b.get_char(i) {
            return false;
        }
        i = i + 1;
    }
    proof {
        assert(a@ =~= b@);
    }
    true
}

/// A copy of an optional string, equal to the original.
pub fn clone_opt_string(o: &Option<String>) -> (r: Option<String>)
    ensures
        r == *o,
{
    match o {
        Some(s) => Some(s.clone()),
        None => None,
    }
}

/// Code-point order on text: whether `a` comes no later than `b`.
pub open spec fn lex_le(a: Seq<char>, b: Seq<char>) -> bool
    decreases a.len(),
{
    if a.len() == 0 {
        true
    } else if b.len() == 0 {
        false
    } else if (a[0] as u32) < (b[0] as u32) {
        true
    } else if (a[0] as u32) > (b[0] as u32) {
        false
    } else {
        lex_le(a.drop_first(), b.drop_first())
    }
}

proof fn lemma_lex_le_refl(a: Seq<char>)
    ensures
        lex_le(a, a),
    decreases a.len(),
{
    if a.len() > 0 {
        lemma_lex_le_refl(a.drop_first());
    }
}

proof fn lemma_lex_le_total(a: Seq<char>, b: Seq<char>)
    ensures
        lex_le(a, b) || lex_le(b, a),
    decreases a.len(),
{
    if a.len() > 0 && b.len() > 0 && (a[0] as u32) == (b[0] as u32) {
        lemma_lex_le_total(a.drop_first(), b.drop_first());
    }
}

proof fn lemma_lex_le_trans(a: Seq<char>, b: Seq<char>, c: Seq<char>)
    requires
        lex_le(a, b),
        lex_le(b, c),
    ensures
        lex_le(a, c),
    decreases a.len(),
{
    if a.len() > 0 && b.len() > 0 && c.len() > 0 && (a[0] as u32) == (b[0] as u32) && (
    b[0] as u32) == (c[0] as u32) {
        lemma_lex_le_trans(a.drop_first(), b.drop_first(), c.drop_first());
    }
}

proof fn lemma_lex_le_skip(a: Seq<char>, b: Seq<char>, i: int)
    requires
        0 <= i <= a.len(),
        i <= b.len(),
        forall|j: int| 0 <= j < i ==> a[j] == b[j],
    ensures
        lex_le(a, b) == lex_le(a.skip(i), b.skip(i)),
    decreases i,
{
    if i == 0 {
        assert(a.skip(0) =~= a);
        assert(b.skip(0) =~= b);
    } else {
        assert(a[0] == b[0]);
        assert(a.drop_first().skip(i - 1) =~= a.skip(i));
        assert(b.drop_first().skip(i - 1) =~= b.skip(i));
        lemma_lex_le_skip(a.drop_first(), b.drop_first(), i - 1);
    }
}

/// Character-by-character comparison of two string slices, in code-point
/// order.
pub fn str_le(a: &str, b: &str) -> (r: bool)
    ensures
        r == lex_le(a@, b@),
{
    let na = a.unicode_len();
    let nb = b.unicode_len();
    let mut i: usize = 0;
    while i < na && i < nb
        invariant
            0 <= i <= na,
            i <= nb,
            na == a@.len(),
            nb == b@.len(),
            forall|j: int| 0 <= j < i ==> a@[j] == b@[j],
        decreases na - i,
    {
        let ca = a.get_char(i) as u32;
        let cb = b.get_char(i) as u32;
        if ca != cb {
            proof {
                lemma_lex_le_skip(a@, b@, i as int);
                assert(a@.skip(i as int)[0] == a@[i as int]);
                assert(b@.skip(i as int)[0] == b@[i as int]);
            }
            return ca < cb;
        }
        i = i + 1;
    }
    proof {
        lemma_lex_le_skip(a@, b@, i as int);
        if i == na {
            assert(a@.skip(i as int).len() == 0);
        } else {
            assert(b@.skip(i as int).len() == 0);
            assert(a@.skip(i as int).len() > 0);
        }
    }
    i >= na
}

/// Whether the strings stand in code-point order.
pub open spec fn names_sorted(s: Seq<String>) -> bool {
    forall|i: int, j: int|
        #![trigger s[i], s[j]]
        0 <= i < j < s.len() ==> lex_le(s[i]@, s[j]@)
}

fn min_index(work: &Vec<String>) -> (m: usize)
    requires
        work@.len() > 0,
    ensures
        m < work@.len(),
        forall|k: int| 0 <= k < work@.len() ==> lex_le(work@[m as int]@, (#[trigger] work@[k])@),
{
    let mut m: usize = 0;
    let mut j: usize = 1;
    proof {
        lemma_lex_le_refl(work@[0]@);
    }
    while j < work.len()
        invariant
            m < j <= work@.len(),
            forall|k: int| 0 <= k < j ==> lex_le(work@[m as int]@, (#[trigger] work@[k])@),
        decreases work@.len() - j,
    {
        if str_le(work[j].as_str(), work[m].as_str()) {
            proof {
                assert forall|k: int| 0 <= k < j + 1 implies lex_le(
                    work@[j as int]@,
                    (#[trigger] work@[k])@,
                ) by {
                    if k < j {
                        lemma_lex_le_trans(work@[j as int]@, work@[m as int]@, work@[k]@);
                    } else {
                        lemma_lex_le_refl(work@[j as int]@);
                    }
                }
            }
            m = j;
        } else {
            proof {
                lemma_lex_le_total(work@[j as int]@, work@[m as int]@);
            }
        }
        j = j + 1;
    }
    m
}

/// The strings rearranged into code-point order: the result holds the
/// same strings, as many times each, in order.
pub fn sort_names(v: &Vec<String>) -> (r: Vec<String>)
    ensures
        names_sorted(r@),
        r@.to_multiset() == v@.to_multiset(),
{
    let n = v.len();
    let mut work: Vec<String> = Vec::new();
    let mut i: usize = 0;
    while i < n
        invariant
            0 <= i <= n,
            n == v@.len(),
            work@ == v@.subrange(0, i as int),
        decreases n - i,
    {
        work.push(v[i].clone());
        proof {
            assert(work@ =~= v@.subrange(0, i + 1));
        }
        i = i + 1;
    }
    proof {
        assert(work@ =~= v@);
    }
    let mut out: Vec<String> = Vec::new();
    proof {
        broadcast use vstd::seq_lib::group_to_multiset_ensures;
        broadcast use vstd::multiset::group_multiset_axioms;

        assert(out@.to_multiset().add(work@.to_multiset()) =~= v@.to_multiset());
    }
    while work.len() > 0
        invariant
            names_sorted(out@),
            forall|p: int, q: int|
                #![trigger out@[p], work@[q]]
                0 <= p < out@.len() && 0 <= q < work@.len() ==> lex_le(out@[p]@, work@[q]@),
            out@.to_multiset().add(work@.to_multiset()) == v@.to_multiset(),
        decreases work@.len(),
    {
        let ghost old_out = out@;
        let ghost old_work = work@;
        let m = min_index(&work);
        let x = work.remove(m);
        out.push(x);
        proof {
            broadcast use vstd::seq_lib::group_to_multiset_ensures;
            broadcast use vstd::multiset::group_multiset_axioms;

            assert(out@.to_multiset().add(work@.to_multiset()) =~= v@.to_multiset());
            assert forall|p: int, q: int|
                #![trigger out@[p], work@[q]]
                0 <= p < out@.len() && 0 <= q < work@.len() implies lex_le(out@[p]@, work@[q]@) by {
                if q < m {
                    assert(work@[q] == old_work[q]);
                } else {
                    assert(work@[q] == old_work[q + 1]);
                }
                if p < old_out.len() {
                    assert(out@[p] == old_out[p]);
                } else {
                    assert(out@[p] == old_work[m as int]);
                }
            }
            assert forall|p: int, q: int|
                #![trigger out@[p], out@[q]]
                0 <= p < q < out@.len() implies lex_le(out@[p]@, out@[q]@) by {
                if q < old_out.len() {
                    assert(out@[p] == old_out[p]);
                    assert(out@[q] == old_out[q]);
                } else {
                    assert(out@[q] == old_work[m as int]);
                    if p < old_out.len() {
                        assert(out@[p] == old_out[p]);
                    }
                }
            }
        }
    }
    out
}

} // verus!
