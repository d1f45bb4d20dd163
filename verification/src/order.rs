//! The order of texts, and sorting by it.

use vstd::prelude::*;

use crate::text;
use crate::text::text_chars;

verus! {

/// `a` comes before `b`: at the first position where they differ it has the smaller character,
/// or it ends there.
pub open spec fn text_less(a: Seq<char>, b: Seq<char>) -> bool
    decreases a.len(),
{
    b.len() > 0 && (a.len() == 0 || a[0] < b[0] || (a[0] == b[0] && text_less(
        a.subrange(1, a.len() as int),
        b.subrange(1, b.len() as int),
    )))
}

/// No text comes before itself.
pub proof fn text_order_is_irreflexive(a: Seq<char>)
    ensures
        !text_less(a, a),
    decreases a.len(),
{
    if a.len() > 0 {
        text_order_is_irreflexive(a.subrange(1, a.len() as int));
    }
}

/// What comes before a text that comes before a third comes before the third.
pub proof fn text_order_is_transitive(a: Seq<char>, b: Seq<char>, c: Seq<char>)
    requires
        text_less(a, b),
        text_less(b, c),
    ensures
        text_less(a, c),
    decreases a.len(),
{
    if a.len() > 0 && a[0] == b[0] && b[0] == c[0] {
        text_order_is_transitive(
            a.subrange(1, a.len() as int),
            b.subrange(1, b.len() as int),
            c.subrange(1, c.len() as int),
        );
    }
}

/// Of two different texts one comes before the other.
pub proof fn text_order_is_total(a: Seq<char>, b: Seq<char>)
    ensures
        text_less(a, b) || a == b || text_less(b, a),
    decreases a.len(),
{
    if a.len() > 0 && b.len() > 0 && a[0] == b[0] {
        let at = a.subrange(1, a.len() as int);
        let bt = b.subrange(1, b.len() as int);
        text_order_is_total(at, bt);
        if at == bt {
            assert(a =~= seq![a[0]] + at);
            assert(b =~= seq![b[0]] + bt);
        }
    } else if a.len() == 0 && b.len() == 0 {
        assert(a =~= b);
    }
}

/// Whether `a` comes before `b`.
pub fn text_before(a: &str, b: &str) -> (yes: bool)
    ensures
        yes == text_less(a@, b@),
{
    let left = text_chars(a);
    let right = text_chars(b);
    let mut i: usize = 0;
    assert(left@.subrange(0, left@.len() as int) =~= left@);
    assert(right@.subrange(0, right@.len() as int) =~= right@);
    while i < left.len() && i < right.len() && left[i] == right[i]
        invariant
            i <= left@.len(),
            i <= right@.len(),
            left@ == a@,
            right@ == b@,
            text_less(a@, b@) == text_less(
                left@.subrange(i as int, left@.len() as int),
                right@.subrange(i as int, right@.len() as int),
            ),
        decreases left@.len() - i,
    {
        let ghost l = left@.subrange(i as int, left@.len() as int);
        let ghost r = right@.subrange(i as int, right@.len() as int);
        assert(l.subrange(1, l.len() as int) =~= left@.subrange(i + 1, left@.len() as int));
        assert(r.subrange(1, r.len() as int) =~= right@.subrange(i + 1, right@.len() as int));
        i = i + 1;
    }
    i < right.len() && (i >= left.len() || left[i] < right[i])
}

/// No text of the list comes before one that stands in front of it.
pub open spec fn in_text_order(list: Seq<Seq<char>>) -> bool {
    forall|i: int, j: int| 0 <= i < j < list.len() ==> !text_less(list[j], list[i])
}

/// Sorts texts: the result holds the same texts, as often, in order.
pub fn sort_texts(list: Vec<String>) -> (sorted: Vec<String>)
    ensures
        in_text_order(text::texts(sorted@)),
        text::texts(sorted@).to_multiset() == text::texts(list@).to_multiset(),
        sorted@.len() == list@.len(),
{
    let mut sorted: Vec<String> = Vec::new();
    let mut i: usize = 0;
    assert(text::texts(sorted@) =~= text::texts(list@.take(0)));
    while i < list.len()
        invariant
            i <= list@.len(),
            sorted@.len() == i,
            in_text_order(text::texts(sorted@)),
            text::texts(sorted@).to_multiset() == text::texts(list@.take(i as int)).to_multiset(),
        decreases list@.len() - i,
    {
        let item = list[i].clone();
        let ghost before = sorted@;
        let mut at: usize = 0;
        while at < sorted.len() && !text_before(item.as_str(), sorted[at].as_str())
            invariant
                at <= sorted@.len(),
                sorted@ == before,
                forall|j: int| 0 <= j < at ==> !text_less(item@, sorted@[j]@),
            decreases sorted@.len() - at,
        {
            at = at + 1;
        }
        sorted.insert(at, item);
        proof {
            lemma_insert_keeps_order(text::texts(before), item@, at as int);
            assert(text::texts(sorted@) =~= text::texts(before).insert(at as int, item@));
            vstd::seq_lib::to_multiset_insert(text::texts(before), at as int, item@);
            vstd::seq_lib::to_multiset_build(text::texts(list@.take(i as int)), item@);
            assert(text::texts(list@.take(i + 1)) =~= text::texts(list@.take(i as int)).push(item@));
        }
        i = i + 1;
    }
    assert(list@.take(i as int) =~= list@);
    sorted
}

proof fn lemma_insert_keeps_order(list: Seq<Seq<char>>, item: Seq<char>, at: int)
    requires
        in_text_order(list),
        0 <= at <= list.len(),
        forall|j: int| 0 <= j < at ==> !text_less(item, list[j]),
        at < list.len() ==> text_less(item, list[at]),
    ensures
        in_text_order(list.insert(at, item)),
{
    let next = list.insert(at, item);
    assert forall|i: int, j: int| 0 <= i < j < next.len() implies !text_less(
        next[j],
        next[i],
    ) by {
        if i == at {
            if text_less(list[j - 1], item) {
                text_order_is_transitive(list[j - 1], item, list[at]);
                if j - 1 == at {
                    text_order_is_irreflexive(list[at]);
                }
            }
        } else if j == at {
        } else if i < at && j < at {
            assert(!text_less(list[j], list[i]));
        } else if i < at {
            assert(!text_less(list[j - 1], list[i]));
        } else {
            assert(!text_less(list[j - 1], list[i - 1]));
        }
    }
}

} // verus!
