//! Lexicographic ordering of strings by character code point, an executable
//! comparison, and a verified insertion sort for vectors of strings.
use vstd::prelude::*;
use vstd::string::*;

verus! {

/// The views (character sequences) of a sequence of strings.
pub open spec fn views_of(s: Seq<String>) -> Seq<Seq<char>> {
    s.map_values(|x: String| x@)
}

/// Plain lexicographic order on character sequences: the empty sequence is
/// least, otherwise the first differing character (by code point) decides.
pub open spec fn lex_le(a: Seq<char>, b: Seq<char>) -> bool
    decreases a.len(),
{
    if a.len() == 0 {
        true
    } else if b.len() == 0 {
        false
    } else if (a[0] as u32) < (b[0] as u32) {
        true
    } else if (b[0] as u32) < (a[0] as u32) {
        false
    } else {
        lex_le(a.subrange(1, a.len() as int), b.subrange(1, b.len() as int))
    }
}

/// `lex_le` is total: any two character sequences are comparable.
pub proof fn lemma_lex_le_total(a: Seq<char>, b: Seq<char>)
    ensures
        lex_le(a, b) || lex_le(b, a),
    decreases a.len(),
{
    if a.len() != 0 && b.len() != 0 && (a[0] as u32) == (b[0] as u32) {
        lemma_lex_le_total(a.subrange(1, a.len() as int), b.subrange(1, b.len() as int));
    }
}

/// `lex_le` is transitive.
pub proof fn lemma_lex_le_trans(a: Seq<char>, b: Seq<char>, c: Seq<char>)
    requires
        lex_le(a, b),
        lex_le(b, c),
    ensures
        lex_le(a, c),
    decreases a.len(),
{
    if a.len() != 0 && b.len() != 0 && c.len() != 0 && (a[0] as u32) == (b[0] as u32) && (b[0] as u32)
        == (c[0] as u32) {
        lemma_lex_le_trans(
            a.subrange(1, a.len() as int),
            b.subrange(1, b.len() as int),
            c.subrange(1, c.len() as int),
        );
    }
}

/// A sequence of character sequences in ascending `lex_le` order.
pub open spec fn lex_sorted(s: Seq<Seq<char>>) -> bool {
    forall|i: int, j: int| 0 <= i < j < s.len() ==> #[trigger] lex_le(s[i], s[j])
}

/// Executable lexicographic comparison of two strings, by code point.
pub fn str_lex_le(a: &str, b: &str) -> (r: bool)
    ensures
        r == lex_le(a@, b@),
{
    let a_len = a.unicode_len();
    let b_len = b.unicode_len();
    let mut i: usize = 0;
    proof {
        assert(a@.subrange(0, a_len as int) =~= a@);
        assert(b@.subrange(0, b_len as int) =~= b@);
    }
    loop
        invariant
            i <= a_len,
            i <= b_len,
            a_len == a@.len(),
            b_len == b@.len(),
            lex_le(a@, b@) == lex_le(
                a@.subrange(i as int, a_len as int),
                b@.subrange(i as int, b_len as int),
            ),
        decreases a_len - i,
    {
        if i == a_len {
            proof {
                assert(a@.subrange(i as int, a_len as int).len() == 0);
            }
            return true;
        }
        if i == b_len {
            proof {
                assert(b@.subrange(i as int, b_len as int).len() == 0);
                assert(a@.subrange(i as int, a_len as int).len() != 0);
            }
            return false;
        }
        let ca = a.get_char(i) as u32;
        let cb = b.get_char(i) as u32;
        proof {
            let sa = a@.subrange(i as int, a_len as int);
            let sb = b@.subrange(i as int, b_len as int);
            assert(sa[0] == a@[i as int]);
            assert(sb[0] == b@[i as int]);
            assert(sa.subrange(1, sa.len() as int) =~= a@.subrange(i + 1, a_len as int));
            assert(sb.subrange(1, sb.len() as int) =~= b@.subrange(i + 1, b_len as int));
        }
        if ca < cb {
            return true;
        }
        if cb < ca {
            return false;
        }
        i = i + 1;
    }
}

/// Clones a vector of strings; every string keeps its value.
pub fn clone_strings(v: &Vec<String>) -> (r: Vec<String>)
    ensures
        r@ == v@,
{
    let mut out: Vec<String> = Vec::new();
    let mut i: usize = 0;
    while i < v.len()
        invariant
            i <= v.len(),
            out@ == v@.take(i as int),
        decreases v.len() - i,
    {
        out.push(v[i].clone());
        proof {
            assert(out@ =~= v@.take(i + 1));
        }
        i = i + 1;
    }
    proof {
        assert(v@.take(v@.len() as int) =~= v@);
    }
    out
}

/// Sorts a vector of strings in ascending lexicographic order, keeping
/// exactly the same strings (as a multiset of character sequences).
pub fn sort_strings(v: &mut Vec<String>)
    ensures
        lex_sorted(views_of(final(v)@)),
        views_of(final(v)@).to_multiset() == views_of(old(v)@).to_multiset(),
{
    broadcast use vstd::multiset::group_multiset_axioms;

    let ghost orig = views_of(v@);
    let mut i: usize = 0;
    while i < v.len()
        invariant
            i <= v.len(),
            lex_sorted(views_of(v@).take(i as int)),
            views_of(v@).to_multiset() == orig.to_multiset(),
        decreases v.len() - i,
    {
        let ghost pre = views_of(v@);
        let x = v.remove(i);
        let ghost xv = x@;
        proof {
            assert(xv == pre[i as int]);
            assert(views_of(v@) =~= pre.remove(i as int));
        }
        let mut j: usize = 0;
        while j < i && str_lex_le(&v[j], &x)
            invariant
                j <= i,
                i <= v.len(),
                v.len() + 1 == pre.len(),
                views_of(v@) == pre.remove(i as int),
                xv == pre[i as int],
                xv == x@,
                forall|k: int| 0 <= k < j ==> lex_le(#[trigger] views_of(v@)[k], xv),
            decreases i - j,
        {
            j = j + 1;
        }
        let ghost mid = views_of(v@);
        v.insert(j, x);
        proof {
            assert(views_of(v@) =~= mid.insert(j as int, xv));
            // the same multiset as before this round
            vstd::seq_lib::to_multiset_remove(pre, i as int);
            assert(mid.to_multiset() == pre.to_multiset().remove(pre[i as int]));
            vstd::seq_lib::to_multiset_insert(mid, j as int, xv);
            assert(views_of(v@).to_multiset() == mid.to_multiset().insert(xv));
            vstd::seq_lib::to_multiset_contains(pre, pre[i as int]);
            assert(pre.contains(pre[i as int]));
            assert(pre.to_multiset().count(pre[i as int]) > 0);
            assert(views_of(v@).to_multiset() =~= pre.to_multiset());
            // the old prefix is the sorted one, element for element
            assert(forall|k: int| 0 <= k < i ==> mid[k] == pre.take(i as int)[k]);
            // everything the scan passed lies at or below xv; xv lies at or
            // below everything from the insertion point on
            assert(forall|k: int| j <= k < i ==> lex_le(xv, #[trigger] mid[k])) by {
                if j < i {
                    lemma_lex_le_total(xv, mid[j as int]);
                    assert(lex_le(xv, mid[j as int]));
                    assert forall|k: int| j < k < i implies lex_le(xv, #[trigger] mid[k]) by {
                        assert(lex_le(
                            pre.take(i as int)[j as int],
                            pre.take(i as int)[k],
                        ));
                        lemma_lex_le_trans(xv, mid[j as int], mid[k]);
                    }
                }
            }
            // the grown prefix is sorted
            assert forall|p: int, q: int| 0 <= p < q < i + 1 implies lex_le(
                #[trigger] views_of(v@)[p],
                #[trigger] views_of(v@)[q],
            ) by {
                let s = views_of(v@);
                if q < j {
                    assert(s[p] == mid[p] && s[q] == mid[q]);
                    assert(lex_le(pre.take(i as int)[p], pre.take(i as int)[q]));
                } else if q == j {
                    assert(s[p] == mid[p]);
                    assert(lex_le(s[p], xv));
                    assert(s[q] == xv);
                } else {
                    assert(s[q] == mid[q - 1]);
                    if p == j {
                        assert(s[p] == xv);
                        assert(lex_le(xv, mid[q - 1]));
                    } else if p < j {
                        assert(s[p] == mid[p]);
                        assert(lex_le(s[p], xv));
                        assert(lex_le(xv, mid[q - 1]));
                        lemma_lex_le_trans(s[p], xv, mid[q - 1]);
                    } else {
                        assert(s[p] == mid[p - 1]);
                        assert(lex_le(pre.take(i as int)[p - 1], pre.take(i as int)[q - 1]));
                    }
                }
            }
            assert(lex_sorted(views_of(v@).take(i + 1)));
        }
        i = i + 1;
    }
    proof {
        assert(views_of(v@).take(v@.len() as int) =~= views_of(v@));
    }
}

} // verus!
