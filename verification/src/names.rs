use vstd::prelude::*;
use vstd::string::*;
use crate::models::Ec3Material;
use crate::order::{
    lemma_text_le_antisymmetric, lemma_text_le_total, lemma_text_le_transitive, str_le, text_le,
};
use crate::text::texts;

verus! {

/// Each text stands before every text behind it, and is another text.
pub open spec fn strictly_ascending(s: Seq<Seq<char>>) -> bool {
    forall|i: int, j: int| 0 <= i < j < s.len() ==> text_le(s[i], s[j]) && s[i] != s[j]
}

/// The names of the categories that the first `upto` materials are filed
/// under.
pub open spec fn names_among(ms: Seq<Ec3Material>, upto: int, name: Seq<char>) -> bool {
    exists|i: int| 0 <= i < upto && i < ms.len() && ms[i].category.name@ == name
}

/// `names` lists the categories of the materials: each name once, in
/// ascending order.
pub open spec fn is_name_index(names: Seq<Seq<char>>, ms: Seq<Ec3Material>) -> bool {
    &&& strictly_ascending(names)
    &&& forall|t: Seq<char>| names.contains(t) <==> names_among(ms, ms.len() as int, t)
}

/// Puts `name` into an ascending list of distinct names, unless it is there.
fn include_name(names: &mut Vec<String>, name: &String)
    requires
        strictly_ascending(texts(old(names)@)),
    ensures
        strictly_ascending(texts(final(names)@)),
        forall|t: Seq<char>|
            texts(final(names)@).contains(t) <==> (texts(old(names)@).contains(t) || t == name@),
{
    let ghost given = texts(names@);
    let mut p: usize = 0;
    while p < names.len() && str_le(names[p].as_str(), name.as_str()) && names[p] != *name
        invariant
            p <= names@.len(),
            names@ == old(names)@,
            given == texts(names@),
            forall|k: int| 0 <= k < p ==> text_le(given[k], name@) && given[k] != name@,
        decreases names@.len() - p,
    {
        assert(given[p as int] == names@[p as int]@);
        p += 1;
    }
    if p < names.len() && names[p] == *name {
        assert(given[p as int] == name@);
        assert forall|t: Seq<char>| given.contains(t) <==> (given.contains(t) || t == name@) by {}
        return ;
    }
    names.insert(p, name.clone());
    proof {
        let after = texts(names@);
        assert(after =~= given.insert(p as int, name@));
        if p < given.len() {
            assert(given[p as int] == old(names)@[p as int]@);
            lemma_text_le_total(given[p as int], name@);
        }
        assert forall|i: int, j: int| 0 <= i < j < after.len() implies text_le(after[i], after[j])
            && after[i] != after[j] by {
            if j < p {
                assert(after[i] == given[i] && after[j] == given[j]);
            } else if j == p {
                assert(after[i] == given[i]);
            } else if i < p {
                assert(after[i] == given[i] && after[j] == given[j - 1]);
            } else if i == p {
                assert(after[j] == given[j - 1]);
                if j - 1 > p {
                    assert(text_le(given[p as int], given[j - 1]));
                    lemma_text_le_transitive(name@, given[p as int], given[j - 1]);
                    if name@ == given[j - 1] {
                        lemma_text_le_antisymmetric(given[p as int], name@);
                    }
                }
            } else {
                assert(after[i] == given[i - 1] && after[j] == given[j - 1]);
            }
        }
        assert forall|t: Seq<char>| after.contains(t) <==> (given.contains(t) || t == name@) by {
            if after.contains(t) {
                let i = choose|i: int| 0 <= i < after.len() && after[i] == t;
                if i < p {
                    assert(given[i] == t);
                } else if i > p {
                    assert(given[i - 1] == t);
                }
            }
            if given.contains(t) {
                let i = choose|i: int| 0 <= i < given.len() && given[i] == t;
                if i < p {
                    assert(after[i] == t);
                } else {
                    assert(after[i + 1] == t);
                }
            }
            if t == name@ {
                assert(after[p as int] == t);
            }
        }
    }
}

/// The names of the categories that the materials are filed under: each name
/// once, in ascending order.
pub fn category_names(materials: &Vec<Ec3Material>) -> (names: Vec<String>)
    ensures
        is_name_index(texts(names@), materials@),
{
    let mut names: Vec<String> = Vec::new();
    let mut i: usize = 0;
    while i < materials.len()
        invariant
            i <= materials@.len(),
            strictly_ascending(texts(names@)),
            forall|t: Seq<char>| texts(names@).contains(t) <==> names_among(materials@, i as int, t),
        decreases materials@.len() - i,
    {
        let ghost before = texts(names@);
        include_name(&mut names, &materials[i].category.name);
        proof {
            let after = texts(names@);
            let name = materials@[i as int].category.name@;
            assert forall|t: Seq<char>| after.contains(t) <==> names_among(
                materials@,
                i + 1,
                t,
            ) by {
                if names_among(materials@, i + 1, t) {
                    let k = choose|k: int|
                        0 <= k < i + 1 && k < materials@.len() && materials@[k].category.name@
                            == t;
                    if k < i {
                        assert(names_among(materials@, i as int, t));
                    }
                }
                if before.contains(t) {
                    assert(names_among(materials@, i as int, t));
                    let k = choose|k: int|
                        0 <= k < i && k < materials@.len() && materials@[k].category.name@ == t;
                    assert(0 <= k < i + 1);
                }
            }
        }
        i += 1;
    }
    names
}

} // verus!
