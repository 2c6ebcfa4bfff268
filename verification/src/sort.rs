use vstd::prelude::*;
use vstd::string::*;
use crate::models::{Ec3Material, Ec3MaterialView};
use crate::number::order_key;
use crate::order::{
    lemma_lex_le_total, lemma_lex_le_transitive, str_le, text_le,
};

verus! {

/// The criterion by which the list of materials is ordered.
#[derive(Clone, Copy, Debug, PartialEq, Eq, Structural)]
pub enum SortBy {
    Name,
    Gwp,
}

/// Of any two items one stands at or before the other, and the relation is
/// transitive.
pub open spec fn total_preorder<T>(le: spec_fn(T, T) -> bool) -> bool {
    &&& forall|a: T, b: T| #[trigger] le(a, b) || le(b, a)
    &&& forall|a: T, b: T, c: T| #[trigger] le(a, b) && #[trigger] le(b, c) ==> le(a, c)
}

/// Every item stands at or before each item behind it.
pub open spec fn sorted<T>(le: spec_fn(T, T) -> bool, s: Seq<T>) -> bool {
    forall|i: int, j: int| 0 <= i < j < s.len() ==> le(s[i], s[j])
}

/// Where `x` goes into `s`: behind the last item that stands at or before it,
/// so behind every item that ties with it.
pub open spec fn insert_point<T>(le: spec_fn(T, T) -> bool, s: Seq<T>, x: T) -> int
    decreases s.len(),
{
    if s.len() == 0 {
        0
    } else if le(s.last(), x) {
        s.len() as int
    } else {
        insert_point(le, s.drop_last(), x)
    }
}

/// The items of `s` in ascending order, ties in the order in which `s` has
/// them.
pub open spec fn stable_sort<T>(le: spec_fn(T, T) -> bool, s: Seq<T>) -> Seq<T>
    decreases s.len(),
{
    if s.len() == 0 {
        s
    } else {
        let head = stable_sort(le, s.drop_last());
        head.insert(insert_point(le, head, s.last()), s.last())
    }
}

/// What marks the insert point: the item before it, if any, stands at or
/// before `x`, and no item from it on does.
pub proof fn lemma_insert_point<T>(le: spec_fn(T, T) -> bool, s: Seq<T>, x: T)
    ensures
        0 <= insert_point(le, s, x) <= s.len(),
        insert_point(le, s, x) == 0 || le(s[insert_point(le, s, x) - 1], x),
        forall|k: int| insert_point(le, s, x) <= k < s.len() ==> !le(#[trigger] s[k], x),
    decreases s.len(),
{
    if s.len() > 0 && !le(s.last(), x) {
        lemma_insert_point(le, s.drop_last(), x);
        let p = insert_point(le, s, x);
        assert forall|k: int| p <= k < s.len() implies !le(#[trigger] s[k], x) by {
            if k < s.len() - 1 {
                assert(s.drop_last()[k] == s[k]);
            }
        }
        if p > 0 {
            assert(s.drop_last()[p - 1] == s[p - 1]);
        }
    }
}

/// The insert point is the one position with these marks.
pub proof fn lemma_insert_point_is<T>(le: spec_fn(T, T) -> bool, s: Seq<T>, x: T, p: int)
    requires
        0 <= p <= s.len(),
        p == 0 || le(s[p - 1], x),
        forall|k: int| p <= k < s.len() ==> !le(#[trigger] s[k], x),
    ensures
        insert_point(le, s, x) == p,
    decreases s.len(),
{
    if s.len() > 0 {
        if le(s.last(), x) {
            if p < s.len() {
                assert(!le(s[s.len() - 1], x));
            }
        } else {
            let head = s.drop_last();
            assert forall|k: int| p <= k < head.len() implies !le(#[trigger] head[k], x) by {
                assert(head[k] == s[k]);
            }
            if p > 0 {
                assert(head[p - 1] == s[p - 1]);
            }
            lemma_insert_point_is(le, head, x, p);
        }
    }
}

/// Putting an item at its insert point keeps a sorted list sorted.
pub proof fn lemma_insert_keeps_sorted<T>(le: spec_fn(T, T) -> bool, s: Seq<T>, x: T)
    requires
        total_preorder(le),
        sorted(le, s),
    ensures
        sorted(le, s.insert(insert_point(le, s, x), x)),
{
    lemma_insert_point(le, s, x);
    let p = insert_point(le, s, x);
    let r = s.insert(p, x);
    assert forall|i: int, j: int| 0 <= i < j < r.len() implies le(r[i], r[j]) by {
        if j < p {
            assert(r[i] == s[i] && r[j] == s[j]);
        } else if j == p {
            assert(r[i] == s[i] && r[j] == x);
            if i < p - 1 {
                assert(le(s[i], s[p - 1]) && le(s[p - 1], x));
            }
        } else if i < p {
            assert(r[i] == s[i] && r[j] == s[j - 1]);
        } else if i == p {
            assert(r[i] == x && r[j] == s[j - 1]);
            assert(!le(s[j - 1], x));
            assert(le(s[j - 1], x) || le(x, s[j - 1]));
        } else {
            assert(r[i] == s[i - 1] && r[j] == s[j - 1]);
        }
    }
}

/// The sorted list is in ascending order.
pub proof fn lemma_stable_sort_sorted<T>(le: spec_fn(T, T) -> bool, s: Seq<T>)
    requires
        total_preorder(le),
    ensures
        sorted(le, stable_sort(le, s)),
        stable_sort(le, s).len() == s.len(),
    decreases s.len(),
{
    if s.len() > 0 {
        lemma_stable_sort_sorted(le, s.drop_last());
        let head = stable_sort(le, s.drop_last());
        lemma_insert_keeps_sorted(le, head, s.last());
        lemma_insert_point(le, head, s.last());
    }
}

/// The sorted list holds the items of the list, each as often.
pub proof fn lemma_stable_sort_permutes<T>(le: spec_fn(T, T) -> bool, s: Seq<T>)
    ensures
        stable_sort(le, s).to_multiset() == s.to_multiset(),
    decreases s.len(),
{
    broadcast use vstd::seq_lib::group_to_multiset_ensures;

    if s.len() > 0 {
        lemma_stable_sort_permutes(le, s.drop_last());
        let head = stable_sort(le, s.drop_last());
        let x = s.last();
        lemma_insert_point(le, head, x);
        let p = insert_point(le, head, x);
        let r = head.insert(p, x);
        assert(r.remove(p) =~= head);
        assert(r[p] == x);
        assert(r.to_multiset().remove(x) == head.to_multiset());
        assert(r.contains(x));
        assert(r.to_multiset() =~= head.to_multiset().insert(x));
        assert(s =~= s.drop_last().push(x));
        assert(s.to_multiset() =~= s.drop_last().to_multiset().insert(x));
    }
}

/// Sorting leaves a list that is in ascending order as it is.
pub proof fn lemma_stable_sort_fixes_sorted<T>(le: spec_fn(T, T) -> bool, s: Seq<T>)
    requires
        sorted(le, s),
    ensures
        stable_sort(le, s) == s,
    decreases s.len(),
{
    if s.len() > 0 {
        let head = s.drop_last();
        assert forall|i: int, j: int| 0 <= i < j < head.len() implies le(head[i], head[j]) by {
            assert(head[i] == s[i] && head[j] == s[j]);
        }
        lemma_stable_sort_fixes_sorted(le, head);
        if head.len() > 0 {
            assert(head[head.len() - 1] == s[s.len() - 2]);
            assert(le(s[s.len() - 2], s[s.len() - 1]));
        }
        lemma_insert_point_is(le, head, s.last(), head.len() as int);
        assert(head.insert(head.len() as int, s.last()) =~= s);
    }
}

/// Sorting twice by one criterion gives what sorting once gives.
pub proof fn lemma_stable_sort_idempotent<T>(le: spec_fn(T, T) -> bool, s: Seq<T>)
    requires
        total_preorder(le),
    ensures
        stable_sort(le, stable_sort(le, s)) == stable_sort(le, s),
{
    lemma_stable_sort_sorted(le, s);
    lemma_stable_sort_fixes_sorted(le, stable_sort(le, s));
}

/// The test for the items that tie with `k`: each stands at or before the
/// other.
pub open spec fn ties_with<T>(le: spec_fn(T, T) -> bool, k: T) -> spec_fn(T) -> bool {
    |y: T| le(y, k) && le(k, y)
}

proof fn lemma_filter_none<T>(s: Seq<T>, pred: spec_fn(T) -> bool)
    requires
        forall|i: int| 0 <= i < s.len() ==> !pred(#[trigger] s[i]),
    ensures
        s.filter(pred) == Seq::<T>::empty(),
    decreases s.len(),
{
    reveal(Seq::filter);
    if s.len() > 0 {
        assert forall|i: int| 0 <= i < s.drop_last().len() implies !pred(
            #[trigger] s.drop_last()[i],
        ) by {
            assert(s.drop_last()[i] == s[i]);
        }
        lemma_filter_none(s.drop_last(), pred);
        assert(!pred(s[s.len() - 1]));
    } else {
        assert(s =~= Seq::<T>::empty());
    }
}

/// What a test lets through of a list with one more item: what it lets through
/// of the list, and the item where it passes.
pub proof fn lemma_filter_push<T>(s: Seq<T>, x: T, pred: spec_fn(T) -> bool)
    ensures
        s.push(x).filter(pred) == if pred(x) {
            s.filter(pred).push(x)
        } else {
            s.filter(pred)
        },
{
    reveal(Seq::filter);
    assert(s.push(x).drop_last() =~= s);
    assert(s.push(x).last() == x);
}

/// Whether an item goes to its insert point or to the end, the items that tie
/// with any `k` come in the same order.
proof fn lemma_insert_keeps_ties<T>(le: spec_fn(T, T) -> bool, t: Seq<T>, x: T, k: T)
    requires
        total_preorder(le),
    ensures
        t.insert(insert_point(le, t, x), x).filter(ties_with(le, k)) == t.push(x).filter(
            ties_with(le, k),
        ),
{
    let pred = ties_with(le, k);
    lemma_insert_point(le, t, x);
    let p = insert_point(le, t, x);
    let front = t.subrange(0, p);
    let back = t.subrange(p, t.len() as int);
    assert(t =~= front + back);
    Seq::filter_distributes_over_add(front.push(x), back, pred);
    Seq::filter_distributes_over_add(front, back, pred);
    lemma_filter_push(front, x, pred);
    lemma_filter_push(t, x, pred);
    if pred(x) {
        assert forall|i: int| 0 <= i < back.len() implies !pred(#[trigger] back[i]) by {
            assert(back[i] == t[p + i]);
            assert(!le(t[p + i], x));
            if pred(back[i]) {
                assert(le(t[p + i], k) && le(k, x));
            }
        }
        lemma_filter_none(back, pred);
        assert(front.filter(pred).push(x) + Seq::<T>::empty() =~= (front.filter(pred)
            + Seq::<T>::empty()).push(x));
    }
}

/// Sorting is stable: the items that tie with any `k` come out in the order in
/// which they went in.
pub proof fn lemma_stable_sort_keeps_ties<T>(le: spec_fn(T, T) -> bool, s: Seq<T>, k: T)
    requires
        total_preorder(le),
    ensures
        stable_sort(le, s).filter(ties_with(le, k)) == s.filter(ties_with(le, k)),
    decreases s.len(),
{
    if s.len() > 0 {
        let pred = ties_with(le, k);
        let head = stable_sort(le, s.drop_last());
        lemma_stable_sort_keeps_ties(le, s.drop_last(), k);
        lemma_insert_keeps_ties(le, head, s.last(), k);
        lemma_filter_push(head, s.last(), pred);
        lemma_filter_push(s.drop_last(), s.last(), pred);
        assert(s =~= s.drop_last().push(s.last()));
    }
}

/// Whether `a` stands at or before `b`: by name in the order of `String`, by
/// potential in the total order of doubles.
pub open spec fn material_le(by: SortBy, a: Ec3MaterialView, b: Ec3MaterialView) -> bool {
    match by {
        SortBy::Name => text_le(a.name, b.name),
        SortBy::Gwp => order_key(a.gwp.value.bits) <= order_key(b.gwp.value.bits),
    }
}

/// The order of materials under a criterion.
pub open spec fn material_order(by: SortBy) -> spec_fn(Ec3Material, Ec3Material) -> bool {
    |a: Ec3Material, b: Ec3Material| material_le(by, a@, b@)
}

/// Under either criterion the materials are totally preordered.
pub proof fn lemma_material_order_total(by: SortBy)
    ensures
        total_preorder(material_order(by)),
{
    let le = material_order(by);
    assert forall|a: Ec3Material, b: Ec3Material| #[trigger] le(a, b) || le(b, a) by {
        lemma_lex_le_total(
            vstd::utf8::encode_utf8(a@.name),
            vstd::utf8::encode_utf8(b@.name),
        );
    }
    assert forall|a: Ec3Material, b: Ec3Material, c: Ec3Material| #[trigger]
        le(a, b) && #[trigger] le(b, c) implies le(a, c) by {
        if by == SortBy::Name {
            lemma_lex_le_transitive(
                vstd::utf8::encode_utf8(a@.name),
                vstd::utf8::encode_utf8(b@.name),
                vstd::utf8::encode_utf8(c@.name),
            );
        }
    }
}

/// Whether `a` stands at or before `b` under the criterion.
pub fn le_materials(by: SortBy, a: &Ec3Material, b: &Ec3Material) -> (r: bool)
    ensures
        r == material_le(by, a@, b@),
{
    match by {
        SortBy::Name => str_le(a.name.as_str(), b.name.as_str()),
        SortBy::Gwp => a.gwp.value.total_le(&b.gwp.value),
    }
}

/// Puts the materials in ascending order under the criterion. Materials that
/// tie keep the order they had, so a list that is in order stays as it is.
pub fn sort_materials(materials: &mut Vec<Ec3Material>, by: SortBy)
    ensures
        final(materials)@ == stable_sort(material_order(by), old(materials)@),
        sorted(material_order(by), final(materials)@),
        final(materials)@.to_multiset() == old(materials)@.to_multiset(),
        forall|k: Ec3Material|
            final(materials)@.filter(ties_with(material_order(by), k)) == old(materials)@.filter(
                #[trigger] ties_with(material_order(by), k),
            ),
        sorted(material_order(by), old(materials)@) ==> final(materials)@ == old(materials)@,
{
    let ghost le = material_order(by);
    let ghost given = materials@;
    let n: usize = materials.len();
    let mut i: usize = 0;
    assert(materials@.take(0) =~= stable_sort(le, given.take(0)));
    while i < n
        invariant
            le == material_order(by),
            n == given.len(),
            materials@.len() == n,
            i <= n,
            materials@.take(i as int) == stable_sort(le, given.take(i as int)),
            materials@.skip(i as int) == given.skip(i as int),
        decreases n - i,
    {
        let ghost head = materials@.take(i as int);
        let ghost x = materials@[i as int];
        let mut p: usize = i;
        while p > 0 && !le_materials(by, &materials[p - 1], &materials[i])
            invariant
                le == material_order(by),
                i < materials@.len(),
                p <= i,
                forall|k: int| p <= k < i ==> !le(#[trigger] materials@[k], materials@[i as int]),
            decreases p,
        {
            p -= 1;
        }
        proof {
            assert forall|k: int| p <= k < head.len() implies !le(#[trigger] head[k], x) by {
                assert(head[k] == materials@[k]);
            }
            if p > 0 {
                assert(head[p - 1] == materials@[p - 1]);
            }
            lemma_insert_point_is(le, head, x, p as int);
            assert(given.skip(i as int)[0] == x);
            assert(given.take(i + 1).drop_last() =~= given.take(i as int));
            assert(given.take(i + 1).last() == x);
        }
        let ghost before = materials@;
        let item = materials.remove(i);
        materials.insert(p, item);
        proof {
            assert(materials@.take(i + 1) =~= head.insert(p as int, x));
            assert forall|k: int| i < k < n implies materials@[k] == given[k] by {
                assert(materials@[k] == before[k]);
                assert(before.skip(i as int)[k - i] == given.skip(i as int)[k - i]);
            }
            assert(materials@.skip(i + 1) =~= given.skip(i + 1));
        }
        i += 1;
    }
    proof {
        assert(materials@.take(n as int) =~= materials@);
        assert(given.take(n as int) =~= given);
        lemma_material_order_total(by);
        lemma_stable_sort_sorted(le, given);
        lemma_stable_sort_permutes(le, given);
        assert forall|k: Ec3Material|
            materials@.filter(ties_with(le, k)) == given.filter(#[trigger] ties_with(le, k)) by {
            lemma_stable_sort_keeps_ties(le, given, k);
        }
        if sorted(le, given) {
            lemma_stable_sort_fixes_sorted(le, given);
        }
    }
}

} // verus!
