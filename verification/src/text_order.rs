//! The lexicographic order of texts, and sorting by it.

use crate::text::{chars_of, texts};
use vstd::prelude::*;
use vstd::relations::{sorted_by, total_ordering};

verus! {

/// Whether `a` stands before `b` in lexicographic order, or equals it. Characters are
/// ordered by code point, which is also the order of the UTF-8 bytes.
pub open spec fn text_le(a: Seq<char>, b: Seq<char>) -> bool
    decreases a.len(),
{
    if a.len() == 0 {
        true
    } else if b.len() == 0 {
        false
    } else if a[0] != b[0] {
        a[0] < b[0]
    } else {
        text_le(a.skip(1), b.skip(1))
    }
}

/// The lexicographic order as a relation.
pub open spec fn text_order() -> spec_fn(Seq<char>, Seq<char>) -> bool {
    |a: Seq<char>, b: Seq<char>| text_le(a, b)
}

proof fn lemma_text_le_reflexive(a: Seq<char>)
    ensures
        text_le(a, a),
    decreases a.len(),
{
    if a.len() > 0 {
        lemma_text_le_reflexive(a.skip(1));
    }
}

proof fn lemma_text_le_antisymmetric(a: Seq<char>, b: Seq<char>)
    requires
        text_le(a, b),
        text_le(b, a),
    ensures
        a == b,
    decreases a.len(),
{
    if a.len() == 0 || b.len() == 0 {
        assert(a =~= b);
    } else {
        lemma_text_le_antisymmetric(a.skip(1), b.skip(1));
        assert(a =~= seq![a[0]] + a.skip(1));
        assert(b =~= seq![b[0]] + b.skip(1));
    }
}

proof fn lemma_text_le_transitive(a: Seq<char>, b: Seq<char>, c: Seq<char>)
    requires
        text_le(a, b),
        text_le(b, c),
    ensures
        text_le(a, c),
    decreases a.len(),
{
    if a.len() > 0 && b.len() > 0 && c.len() > 0 && a[0] == b[0] && b[0] == c[0] {
        lemma_text_le_transitive(a.skip(1), b.skip(1), c.skip(1));
    }
}

proof fn lemma_text_le_connected(a: Seq<char>, b: Seq<char>)
    ensures
        text_le(a, b) || text_le(b, a),
    decreases a.len(),
{
    if a.len() > 0 && b.len() > 0 && a[0] == b[0] {
        lemma_text_le_connected(a.skip(1), b.skip(1));
    }
}

/// Of two texts in order, the first is a beginning of the second, or has the smaller character
/// where they first differ.
pub proof fn lemma_text_le_prefix(a: Seq<char>, b: Seq<char>)
    requires
        text_le(a, b),
    ensures
        exists|n: int|
            0 <= n <= a.len() && n <= b.len() && #[trigger] a.take(n) == b.take(n) && (n == a.len()
                || (n < b.len() && a[n] < b[n])),
    decreases a.len(),
{
    if a.len() == 0 || a[0] != b[0] {
        assert(a.take(0) =~= b.take(0));
    } else {
        let (s, t) = (a.skip(1), b.skip(1));
        lemma_text_le_prefix(s, t);
        let n = choose|n: int|
            0 <= n <= s.len() && n <= t.len() && #[trigger] s.take(n) == t.take(n) && (n == s.len()
                || (n < t.len() && s[n] < t[n]));
        assert(a.take(n + 1) =~= seq![a[0]] + s.take(n));
        assert(b.take(n + 1) =~= seq![b[0]] + t.take(n));
    }
}

/// The lexicographic order is total: any two texts can be compared, and sorting by it has
/// exactly one outcome.
pub proof fn lemma_text_order_total()
    ensures
        total_ordering(text_order()),
{
    let order = text_order();
    assert forall|a: Seq<char>| #[trigger] order(a, a) by {
        lemma_text_le_reflexive(a);
    }
    assert forall|a: Seq<char>, b: Seq<char>| #[trigger]
        order(a, b) && #[trigger] order(b, a) implies a == b by {
        lemma_text_le_antisymmetric(a, b);
    }
    assert forall|a: Seq<char>, b: Seq<char>, c: Seq<char>| #[trigger]
        order(a, b) && #[trigger] order(b, c) implies order(a, c) by {
        lemma_text_le_transitive(a, b, c);
    }
    assert forall|a: Seq<char>, b: Seq<char>| #[trigger] order(a, b) || #[trigger] order(b, a) by {
        lemma_text_le_connected(a, b);
    }
}

/// Whether `a` stands before `b` in lexicographic order, or equals it.
pub fn not_after(a: &str, b: &str) -> (result: bool)
    ensures
        result == text_le(a@, b@),
{
    let left = chars_of(a);
    let right = chars_of(b);
    let mut i: usize = 0;
    proof {
        assert(left@.skip(0) =~= left@);
        assert(right@.skip(0) =~= right@);
    }
    while i < left.len() && i < right.len() && left[i] == right[i]
        invariant
            i <= left@.len(),
            i <= right@.len(),
            text_le(left@, right@) == text_le(left@.skip(i as int), right@.skip(i as int)),
        decreases left.len() - i,
    {
        proof {
            assert(left@.skip(i as int).skip(1) =~= left@.skip(i + 1));
            assert(right@.skip(i as int).skip(1) =~= right@.skip(i + 1));
        }
        i = i + 1;
    }
    i == left.len() || (i < right.len() && left[i] < right[i])
}

/// Sorts texts in lexicographic order.
pub fn sort_texts(labels: Vec<String>) -> (result: Vec<String>)
    ensures
        texts(result@) == texts(labels@).sort_by(text_order()),
{
    let mut result: Vec<String> = Vec::new();
    let mut i: usize = 0;
    let ghost order = text_order();
    let ghost all = texts(labels@);
    proof {
        lemma_text_order_total();
        assert(texts(result@) =~= Seq::empty());
        assert(all.take(0) =~= Seq::empty());
    }
    while i < labels.len()
        invariant
            i <= labels@.len(),
            all == texts(labels@),
            order == text_order(),
            total_ordering(order),
            sorted_by(texts(result@), order),
            texts(result@).to_multiset() == all.take(i as int).to_multiset(),
        decreases labels.len() - i,
    {
        let label = labels[i].clone();
        let mut at: usize = 0;
        while at < result.len() && not_after(result[at].as_str(), label.as_str())
            invariant
                at <= result@.len(),
                order == text_order(),
                forall|k: int|
                    0 <= k < at ==> #[trigger] order(texts(result@)[k], label@),
            decreases result.len() - at,
        {
            at = at + 1;
        }
        let ghost before = texts(result@);
        result.insert(at, label);
        proof {
            let after = texts(result@);
            assert(after =~= before.insert(at as int, label@));
            vstd::seq_lib::to_multiset_insert(before, at as int, label@);
            assert(all.take(i + 1) =~= all.take(i as int).push(label@));
            vstd::seq_lib::to_multiset_build(all.take(i as int), label@);
            assert forall|p: int, q: int| 0 <= p < q < after.len() implies #[trigger] order(
                after[p],
                after[q],
            ) by {
                let bp = if p < at { p } else { p - 1 };
                let bq = if q < at { q } else { q - 1 };
                if p == at {
                    assert(!order(before[at as int], label@));
                    lemma_text_le_connected(before[at as int], label@);
                    if bq > at {
                        assert(order(before[at as int], before[bq]));
                        lemma_text_le_transitive(label@, before[at as int], before[bq]);
                    }
                } else if q == at {
                    assert(order(before[bp], label@));
                } else {
                    assert(order(before[bp], before[bq]));
                }
            }
        }
        i = i + 1;
    }
    proof {
        assert(all.take(i as int) =~= all);
        all.lemma_sort_by_ensures(order);
        vstd::seq_lib::lemma_sorted_unique(texts(result@), all.sort_by(order), order);
    }
    result
}

} // verus!
