use vstd::prelude::*;
use vstd::string::*;
use crate::models::{
    Category, CategoryView, Ec3Material, Ec3MaterialView, Manufacturer, ManufacturerView,
};
use crate::text::texts;

verus! {

/// The items of `s` in the order in which each occurs first.
pub open spec fn first_occurrences<A>(s: Seq<A>) -> Seq<A>
    decreases s.len(),
{
    if s.len() == 0 {
        Seq::empty()
    } else {
        let seen = first_occurrences(s.drop_last());
        if seen.contains(s.last()) {
            seen
        } else {
            seen.push(s.last())
        }
    }
}

/// The first occurrences hold each item of the list, and none twice.
pub proof fn lemma_first_occurrences<A>(s: Seq<A>)
    ensures
        first_occurrences(s).no_duplicates(),
        first_occurrences(s).len() <= s.len(),
        forall|x: A| first_occurrences(s).contains(x) <==> s.contains(x),
    decreases s.len(),
{
    if s.len() > 0 {
        let head = s.drop_last();
        lemma_first_occurrences(head);
        let seen = first_occurrences(head);
        let d = first_occurrences(s);
        assert forall|x: A| d.contains(x) <==> s.contains(x) by {
            if s.contains(x) {
                let i = choose|i: int| 0 <= i < s.len() && s[i] == x;
                if i < s.len() - 1 {
                    assert(head[i] == x);
                    assert(head.contains(x));
                    assert(seen.contains(x));
                    let j = choose|j: int| 0 <= j < seen.len() && seen[j] == x;
                    assert(d[j] == x);
                } else if !seen.contains(s.last()) {
                    assert(d[d.len() - 1] == x);
                }
            }
            if d.contains(x) {
                let j = choose|j: int| 0 <= j < d.len() && d[j] == x;
                if j < seen.len() {
                    assert(seen[j] == x);
                    assert(seen.contains(x));
                    assert(head.contains(x));
                    let i = choose|i: int| 0 <= i < head.len() && head[i] == x;
                    assert(s[i] == x);
                } else {
                    assert(s[s.len() - 1] == x);
                }
            }
        }
    }
}

/// The categories of the materials, one for each material.
pub open spec fn categories_of(ms: Seq<Ec3MaterialView>) -> Seq<CategoryView> {
    Seq::new(ms.len(), |i: int| ms[i].category)
}

/// The manufacturers of the materials, one for each material.
pub open spec fn manufacturers_of(ms: Seq<Ec3MaterialView>) -> Seq<ManufacturerView> {
    Seq::new(ms.len(), |i: int| ms[i].manufacturer)
}

pub open spec fn category_views(v: Seq<Category>) -> Seq<CategoryView> {
    Seq::new(v.len(), |i: int| v[i]@)
}

pub open spec fn manufacturer_views(v: Seq<Manufacturer>) -> Seq<ManufacturerView> {
    Seq::new(v.len(), |i: int| v[i]@)
}

/// The distinct categories of a batch, each where it occurs first.
pub fn distinct_categories(materials: &Vec<Ec3Material>) -> (r: Vec<Category>)
    ensures
        category_views(r@) == first_occurrences(
            categories_of(crate::models::material_views(materials@)),
        ),
{
    let ghost all = categories_of(crate::models::material_views(materials@));
    let mut r: Vec<Category> = Vec::new();
    let mut i: usize = 0;
    while i < materials.len()
        invariant
            i <= materials@.len(),
            all == categories_of(crate::models::material_views(materials@)),
            category_views(r@) == first_occurrences(all.take(i as int)),
        decreases materials@.len() - i,
    {
        let c = &materials[i].category;
        let ghost seen = category_views(r@);
        let mut found = false;
        let mut j: usize = 0;
        while j < r.len()
            invariant
                j <= r@.len(),
                found == exists|k: int| 0 <= k < j && r@[k]@ == c@,
            decreases r@.len() - j,
        {
            if r[j].same(c) {
                found = true;
            }
            j += 1;
        }
        proof {
            assert(all.take(i + 1).drop_last() =~= all.take(i as int));
            assert(all.take(i + 1).last() == c@);
            if found {
                let k = choose|k: int| 0 <= k < r@.len() && r@[k]@ == c@;
                assert(seen[k] == c@);
            } else {
                if seen.contains(c@) {
                    let k = choose|k: int| 0 <= k < seen.len() && seen[k] == c@;
                    assert(r@[k]@ == c@);
                }
            }
        }
        if !found {
            r.push(c.duplicate());
            assert(category_views(r@) =~= seen.push(c@));
        }
        i += 1;
    }
    assert(all.take(materials@.len() as int) =~= all);
    r
}

/// The distinct manufacturers of a batch, each where it occurs first.
pub fn distinct_manufacturers(materials: &Vec<Ec3Material>) -> (r: Vec<Manufacturer>)
    ensures
        manufacturer_views(r@) == first_occurrences(
            manufacturers_of(crate::models::material_views(materials@)),
        ),
{
    let ghost all = manufacturers_of(crate::models::material_views(materials@));
    let mut r: Vec<Manufacturer> = Vec::new();
    let mut i: usize = 0;
    while i < materials.len()
        invariant
            i <= materials@.len(),
            all == manufacturers_of(crate::models::material_views(materials@)),
            manufacturer_views(r@) == first_occurrences(all.take(i as int)),
        decreases materials@.len() - i,
    {
        let m = &materials[i].manufacturer;
        let ghost seen = manufacturer_views(r@);
        let mut found = false;
        let mut j: usize = 0;
        while j < r.len()
            invariant
                j <= r@.len(),
                found == exists|k: int| 0 <= k < j && r@[k]@ == m@,
            decreases r@.len() - j,
        {
            if r[j].same(m) {
                found = true;
            }
            j += 1;
        }
        proof {
            assert(all.take(i + 1).drop_last() =~= all.take(i as int));
            assert(all.take(i + 1).last() == m@);
            if found {
                let k = choose|k: int| 0 <= k < r@.len() && r@[k]@ == m@;
                assert(seen[k] == m@);
            } else {
                if seen.contains(m@) {
                    let k = choose|k: int| 0 <= k < seen.len() && seen[k] == m@;
                    assert(r@[k]@ == m@);
                }
            }
        }
        if !found {
            r.push(m.duplicate());
            assert(manufacturer_views(r@) =~= seen.push(m@));
        }
        i += 1;
    }
    assert(all.take(materials@.len() as int) =~= all);
    r
}

/// The country under which a manufacturer is stored where none is known.
pub open spec fn stored_country(country: Option<Seq<char>>) -> Seq<char> {
    match country {
        Some(c) => c,
        None => "Unknown"@,
    }
}

/// What is stored of a category: its id, name, display name and description,
/// and the category above it.
pub open spec fn category_row(c: CategoryView, parent: Seq<char>) -> Seq<Seq<char>> {
    seq![c.id, c.name, c.display_name, c.description, parent]
}

/// What is stored of a manufacturer: its name and its country.
pub open spec fn manufacturer_row(m: ManufacturerView) -> Seq<Seq<char>> {
    seq![m.name, stored_country(m.country)]
}

/// What is stored of a material: id, name, description, the category's id, the
/// potential and its unit, the manufacturer's name, the declared quantity and
/// its unit.
pub open spec fn material_row(m: Ec3MaterialView) -> Seq<Seq<char>> {
    seq![
        m.id,
        m.name,
        m.description,
        m.category.id,
        m.gwp.value.text,
        m.gwp.unit.spec_name(),
        m.manufacturer.name,
        m.declared_unit.value.text,
        m.declared_unit.unit.spec_name(),
    ]
}

/// The texts of a list of rows.
pub open spec fn row_texts(rows: Seq<Vec<String>>) -> Seq<Seq<Seq<char>>> {
    Seq::new(rows.len(), |i: int| texts(rows[i]@))
}

/// One row for each distinct category of the batch, all under `parent`.
pub open spec fn category_rows_of(ms: Seq<Ec3MaterialView>, parent: Seq<char>) -> Seq<
    Seq<Seq<char>>,
> {
    let distinct = first_occurrences(categories_of(ms));
    Seq::new(distinct.len(), |i: int| category_row(distinct[i], parent))
}

/// One row for each distinct manufacturer of the batch.
pub open spec fn manufacturer_rows_of(ms: Seq<Ec3MaterialView>) -> Seq<Seq<Seq<char>>> {
    let distinct = first_occurrences(manufacturers_of(ms));
    Seq::new(distinct.len(), |i: int| manufacturer_row(distinct[i]))
}

/// One row for each material of the batch, in the batch's order.
pub open spec fn material_rows_of(ms: Seq<Ec3MaterialView>) -> Seq<Seq<Seq<char>>> {
    Seq::new(ms.len(), |i: int| material_row(ms[i]))
}

/// The rows to store for the categories of a batch.
pub fn category_rows(materials: &Vec<Ec3Material>, parent: &str) -> (rows: Vec<Vec<String>>)
    ensures
        row_texts(rows@) == category_rows_of(crate::models::material_views(materials@), parent@),
{
    let distinct = distinct_categories(materials);
    let mut rows: Vec<Vec<String>> = Vec::new();
    let mut i: usize = 0;
    while i < distinct.len()
        invariant
            i <= distinct@.len(),
            rows@.len() == i,
            forall|j: int| 0 <= j < i ==> texts(rows@[j]@) == category_row(distinct@[j]@, parent@),
        decreases distinct@.len() - i,
    {
        let c = &distinct[i];
        let mut row: Vec<String> = Vec::new();
        row.push(c.id.clone());
        row.push(c.name.clone());
        row.push(c.display_name.clone());
        row.push(c.description.clone());
        row.push(String::from_str(parent));
        assert(texts(row@) =~= category_row(c@, parent@));
        rows.push(row);
        i += 1;
    }
    assert(row_texts(rows@) =~= category_rows_of(
        crate::models::material_views(materials@),
        parent@,
    ));
    rows
}

/// The rows to store for the manufacturers of a batch.
pub fn manufacturer_rows(materials: &Vec<Ec3Material>) -> (rows: Vec<Vec<String>>)
    ensures
        row_texts(rows@) == manufacturer_rows_of(crate::models::material_views(materials@)),
{
    let distinct = distinct_manufacturers(materials);
    let mut rows: Vec<Vec<String>> = Vec::new();
    let mut i: usize = 0;
    while i < distinct.len()
        invariant
            i <= distinct@.len(),
            rows@.len() == i,
            forall|j: int| 0 <= j < i ==> texts(rows@[j]@) == manufacturer_row(distinct@[j]@),
        decreases distinct@.len() - i,
    {
        let m = &distinct[i];
        let mut row: Vec<String> = Vec::new();
        row.push(m.name.clone());
        let country = match &m.country {
            Some(c) => c.clone(),
            None => String::from_str("Unknown"),
        };
        row.push(country);
        assert(texts(row@) =~= manufacturer_row(m@));
        rows.push(row);
        i += 1;
    }
    assert(row_texts(rows@) =~= manufacturer_rows_of(crate::models::material_views(materials@)));
    rows
}

/// The rows to store for the materials of a batch.
pub fn material_rows(materials: &Vec<Ec3Material>) -> (rows: Vec<Vec<String>>)
    ensures
        row_texts(rows@) == material_rows_of(crate::models::material_views(materials@)),
{
    let mut rows: Vec<Vec<String>> = Vec::new();
    let mut i: usize = 0;
    while i < materials.len()
        invariant
            i <= materials@.len(),
            rows@.len() == i,
            forall|j: int| 0 <= j < i ==> texts(rows@[j]@) == material_row(materials@[j]@),
        decreases materials@.len() - i,
    {
        let m = &materials[i];
        let mut row: Vec<String> = Vec::new();
        row.push(m.id.clone());
        row.push(m.name.clone());
        row.push(m.description.clone());
        row.push(m.category.id.clone());
        row.push(String::from_str(m.gwp.value.text()));
        row.push(String::from_str(m.gwp.unit.name()));
        row.push(m.manufacturer.name.clone());
        row.push(String::from_str(m.declared_unit.value.text()));
        row.push(String::from_str(m.declared_unit.unit.name()));
        assert(texts(row@) =~= material_row(m@));
        rows.push(row);
        i += 1;
    }
    assert(row_texts(rows@) =~= material_rows_of(crate::models::material_views(materials@)));
    rows
}

} // verus!
