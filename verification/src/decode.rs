use vstd::prelude::*;
use vstd::string::*;
use crate::json::{json_value, member, member_in, number_of, text_of, text_or_empty, Json};
use crate::material_db::all_wf;
use crate::models::{
    material_views, Category, CategoryView, Ec3Category, Ec3CategoryView, Ec3Material,
    Ec3MaterialView, Manufacturer, ManufacturerView,
};
use crate::number::{real_bits, Number, NumberView, ONE_BITS};
use crate::tree::Node;
use crate::units::{
    declared_unit_of, gwp_of, gwp_unit_of, unit_of, ApiError, DeclaredUnit, DeclaredUnitView, Gwp,
    GwpUnits, GwpView, Unit,
};

verus! {

/// The member of a member.
pub open spec fn member_opt(j: Option<Json>, key: Seq<char>) -> Option<Json> {
    match j {
        Some(v) => member(v, key),
        None => None,
    }
}

/// Zero of an unknown unit.
pub open spec fn unknown_gwp() -> GwpView {
    GwpView { value: NumberView { bits: 0, text: "0"@ }, unit: GwpUnits::Unknown }
}

/// One of an unknown unit.
pub open spec fn unit_declared() -> DeclaredUnitView {
    DeclaredUnitView { value: NumberView { bits: ONE_BITS, text: "1"@ }, unit: Unit::Unknown }
}

/// The potential that a text holds, and zero of an unknown unit where it
/// holds none.
pub open spec fn gwp_or_unknown(t: Option<Seq<char>>) -> GwpView {
    match t {
        Some(s) => match gwp_of(s) {
            Ok(g) => g,
            Err(_) => unknown_gwp(),
        },
        None => unknown_gwp(),
    }
}

/// The declared unit that a text holds, and one of an unknown unit where it
/// holds none.
pub open spec fn declared_or_unit(t: Option<Seq<char>>) -> DeclaredUnitView {
    match t {
        Some(s) => match declared_unit_of(s) {
            Some(d) => d,
            None => unit_declared(),
        },
        None => unit_declared(),
    }
}

/// The material that one element of the service's answer holds. An element
/// is a material where it is an object with a name. Everything else may be
/// missing: a text is then empty, the image and the manufacturer's country
/// are absent, the potential is zero of an unknown unit, and the material is
/// declared per one of an unknown unit.
pub open spec fn api_material(j: Json) -> Option<Ec3MaterialView> {
    match text_of(member(j, "name"@)) {
        None => None,
        Some(name) => Some(
            Ec3MaterialView {
                name,
                gwp: gwp_or_unknown(text_of(member(j, "gwp"@))),
                image: text_of(member(j, "image"@)),
                manufacturer: ManufacturerView {
                    name: text_or_empty(member_opt(member(j, "manufacturer"@), "name"@)),
                    country: text_of(member_opt(member(j, "manufacturer"@), "country"@)),
                },
                description: text_or_empty(member(j, "description"@)),
                category: CategoryView {
                    description: text_or_empty(member_opt(member(j, "category"@), "description"@)),
                    name: text_or_empty(member_opt(member(j, "category"@), "name"@)),
                    display_name: text_or_empty(
                        member_opt(member(j, "category"@), "display_name"@),
                    ),
                    id: text_or_empty(member_opt(member(j, "category"@), "id"@)),
                },
                id: text_or_empty(member(j, "id"@)),
                declared_unit: declared_or_unit(text_of(member(j, "declared_unit"@))),
            },
        ),
    }
}

fn inner_text(j: &Json, outer: &str, inner: &str) -> (r: Option<String>)
    ensures
        crate::models::opt_text(r) == text_of(member_opt(member(*j, outer@), inner@)),
{
    match j.get(outer) {
        Some(v) => match v.text(inner) {
            Some(t) => Some(String::from_str(t)),
            None => None,
        },
        None => None,
    }
}

fn inner_text_or_empty(j: &Json, outer: &str, inner: &str) -> (r: String)
    ensures
        r@ == text_or_empty(member_opt(member(*j, outer@), inner@)),
{
    match inner_text(j, outer, inner) {
        Some(t) => t,
        None => String::new(),
    }
}

fn read_gwp(t: Option<&str>) -> (g: Gwp)
    ensures
        g@ == gwp_or_unknown(
            match t {
                Some(s) => Some(s@),
                None => None,
            },
        ),
        g.wf(),
{
    match t {
        Some(s) => match Gwp::from_str(s) {
            Ok(g) => g,
            Err(_) => Gwp::unknown(),
        },
        None => Gwp::unknown(),
    }
}

fn read_declared(t: Option<&str>) -> (d: DeclaredUnit)
    ensures
        d@ == declared_or_unit(
            match t {
                Some(s) => Some(s@),
                None => None,
            },
        ),
        d.wf(),
{
    match t {
        Some(s) => match DeclaredUnit::from_str(s) {
            Some(d) => d,
            None => DeclaredUnit::one(),
        },
        None => DeclaredUnit::one(),
    }
}

/// Reads one element of the service's answer.
pub fn material_of_json(j: &Json) -> (r: Option<Ec3Material>)
    ensures
        match r {
            Some(m) => api_material(*j) == Some(m@) && m.wf(),
            None => api_material(*j) is None,
        },
{
    let name = match j.text("name") {
        Some(t) => String::from_str(t),
        None => { return None; },
    };
    let image = match j.text("image") {
        Some(t) => Some(String::from_str(t)),
        None => None,
    };
    Some(
        Ec3Material {
            name,
            gwp: read_gwp(j.text("gwp")),
            image,
            manufacturer: Manufacturer {
                name: inner_text_or_empty(j, "manufacturer", "name"),
                country: inner_text(j, "manufacturer", "country"),
            },
            description: j.text_or_empty("description"),
            category: Category {
                description: inner_text_or_empty(j, "category", "description"),
                name: inner_text_or_empty(j, "category", "name"),
                display_name: inner_text_or_empty(j, "category", "display_name"),
                id: inner_text_or_empty(j, "category", "id"),
            },
            id: j.text_or_empty("id"),
            declared_unit: read_declared(j.text("declared_unit")),
        },
    )
}

/// The materials that the elements of a list hold, in the list's order. An
/// element that holds none is passed over.
pub open spec fn api_materials(items: Seq<Json>) -> Seq<Ec3MaterialView>
    decreases items.len(),
{
    if items.len() == 0 {
        Seq::empty()
    } else {
        let head = api_materials(items.drop_last());
        match api_material(items.last()) {
            Some(m) => head.push(m),
            None => head,
        }
    }
}

/// What the body of an answer holds once it is read as JSON: the materials of
/// a list that is not empty. No JSON is `Deserialize`; anything but a list,
/// and a list without elements, is `EmptyArray`.
pub open spec fn answer_materials(j: Option<Json>) -> Result<Seq<Ec3MaterialView>, ApiError> {
    match j {
        None => Err(ApiError::Deserialize),
        Some(Json::Array(items)) => if items@.len() == 0 {
            Err(ApiError::EmptyArray)
        } else {
            Ok(api_materials(items@))
        },
        Some(_) => Err(ApiError::EmptyArray),
    }
}

/// Reads the materials of an answer that was read as JSON.
pub fn materials_of_json(j: &Option<Json>) -> (r: Result<Vec<Ec3Material>, ApiError>)
    ensures
        match r {
            Ok(ms) => answer_materials(*j) == Ok::<Seq<Ec3MaterialView>, ApiError>(
                material_views(ms@),
            ) && all_wf(ms@),
            Err(e) => answer_materials(*j) == Err::<Seq<Ec3MaterialView>, ApiError>(e),
        },
{
    match j {
        None => Err(ApiError::Deserialize),
        Some(Json::Array(items)) => {
            if items.len() == 0 {
                return Err(ApiError::EmptyArray);
            }
            let mut materials: Vec<Ec3Material> = Vec::new();
            let mut i: usize = 0;
            assert(items@.take(0) =~= Seq::<Json>::empty());
            while i < items.len()
                invariant
                    i <= items@.len(),
                    material_views(materials@) == api_materials(items@.take(i as int)),
                    all_wf(materials@),
                decreases items@.len() - i,
            {
                let ghost before = material_views(materials@);
                assert(items@.take(i + 1).drop_last() =~= items@.take(i as int));
                assert(items@.take(i + 1).last() == items@[i as int]);
                match material_of_json(&items[i]) {
                    Some(m) => {
                        materials.push(m);
                        assert(material_views(materials@) =~= before.push(m@));
                    },
                    None => {},
                }
                i += 1;
            }
            assert(items@.take(items@.len() as int) =~= items@);
            Ok(materials)
        },
        Some(_) => Err(ApiError::EmptyArray),
    }
}

/// Reads the materials that the body of the service's answer holds.
pub fn decode_response(body: &str) -> (r: Result<Vec<Ec3Material>, ApiError>)
    ensures
        match r {
            Ok(ms) => answer_materials(json_value(body@)) == Ok::<
                Seq<Ec3MaterialView>,
                ApiError,
            >(material_views(ms@)) && all_wf(ms@),
            Err(e) => answer_materials(json_value(body@)) == Err::<
                Seq<Ec3MaterialView>,
                ApiError,
            >(e),
        },
{
    let json = Json::parse(body);
    materials_of_json(&json)
}

/// The number that a decimal text holds, and zero where it holds none.
pub open spec fn number_or_zero(t: Option<Seq<char>>) -> NumberView {
    match t {
        Some(s) => match real_bits(s) {
            Some(bits) => NumberView { bits, text: s },
            None => NumberView { bits: 0, text: "0"@ },
        },
        None => NumberView { bits: 0, text: "0"@ },
    }
}

/// The material that one element of a stored answer holds. Nothing has to be
/// there: a missing text is empty, a missing number is zero, a unit that is
/// not known is `Unknown`.
pub open spec fn cached_material(j: Json) -> Ec3MaterialView {
    Ec3MaterialView {
        name: text_or_empty(member(j, "name"@)),
        gwp: GwpView {
            value: number_or_zero(number_of(member_opt(member(j, "gwp"@), "value"@))),
            unit: gwp_unit_of(text_or_empty(member_opt(member(j, "gwp"@), "unit"@))),
        },
        image: text_of(member(j, "image"@)),
        manufacturer: ManufacturerView {
            name: text_or_empty(member_opt(member(j, "manufacturer"@), "name"@)),
            country: Some(text_or_empty(member_opt(member(j, "manufacturer"@), "country"@))),
        },
        description: text_or_empty(member(j, "description"@)),
        category: CategoryView {
            description: text_or_empty(member_opt(member(j, "category"@), "description"@)),
            name: text_or_empty(member_opt(member(j, "category"@), "name"@)),
            display_name: text_or_empty(member_opt(member(j, "category"@), "display_name"@)),
            id: text_or_empty(member_opt(member(j, "category"@), "id"@)),
        },
        id: text_or_empty(member(j, "id"@)),
        declared_unit: DeclaredUnitView {
            value: number_or_zero(number_of(member_opt(member(j, "declared_unit"@), "value"@))),
            unit: unit_of(text_or_empty(member_opt(member(j, "declared_unit"@), "unit"@))),
        },
    }
}

fn inner_number(j: &Json, outer: &str, inner: &str) -> (n: Number)
    ensures
        n@ == number_or_zero(number_of(member_opt(member(*j, outer@), inner@))),
        n.wf(),
{
    match j.get(outer) {
        Some(v) => match v.number(inner) {
            Some(t) => match Number::parse(t) {
                Some(n) => n,
                None => Number::zero(),
            },
            None => Number::zero(),
        },
        None => Number::zero(),
    }
}

/// Reads one element of a stored answer.
pub fn cached_material_of_json(j: &Json) -> (m: Ec3Material)
    ensures
        m@ == cached_material(*j),
        m.wf(),
{
    let image = match j.text("image") {
        Some(t) => Some(String::from_str(t)),
        None => None,
    };
    let gwp_unit = match GwpUnits::from_str(inner_text_or_empty(j, "gwp", "unit").as_str()) {
        Ok(u) => u,
        Err(_) => GwpUnits::Unknown,
    };
    let unit = match Unit::from_str(inner_text_or_empty(j, "declared_unit", "unit").as_str()) {
        Ok(u) => u,
        Err(_) => Unit::Unknown,
    };
    Ec3Material {
        name: j.text_or_empty("name"),
        gwp: Gwp { value: inner_number(j, "gwp", "value"), unit: gwp_unit },
        image,
        manufacturer: Manufacturer {
            name: inner_text_or_empty(j, "manufacturer", "name"),
            country: Some(inner_text_or_empty(j, "manufacturer", "country")),
        },
        description: j.text_or_empty("description"),
        category: Category {
            description: inner_text_or_empty(j, "category", "description"),
            name: inner_text_or_empty(j, "category", "name"),
            display_name: inner_text_or_empty(j, "category", "display_name"),
            id: inner_text_or_empty(j, "category", "id"),
        },
        id: j.text_or_empty("id"),
        declared_unit: DeclaredUnit { value: inner_number(j, "declared_unit", "value"), unit },
    }
}

/// What a stored answer holds once it is read as JSON: one material for each
/// element of a list. No JSON is `Deserialize`; anything but a list is
/// `EmptyArray`.
pub open spec fn cache_materials(j: Option<Json>) -> Result<Seq<Ec3MaterialView>, ApiError> {
    match j {
        None => Err(ApiError::Deserialize),
        Some(Json::Array(items)) => Ok(
            Seq::new(items@.len(), |i: int| cached_material(items@[i])),
        ),
        Some(_) => Err(ApiError::EmptyArray),
    }
}

/// Reads the materials of a stored answer that was read as JSON.
pub fn cached_materials_of_json(j: &Option<Json>) -> (r: Result<Vec<Ec3Material>, ApiError>)
    ensures
        match r {
            Ok(ms) => cache_materials(*j) == Ok::<Seq<Ec3MaterialView>, ApiError>(
                material_views(ms@),
            ) && all_wf(ms@),
            Err(e) => cache_materials(*j) == Err::<Seq<Ec3MaterialView>, ApiError>(e),
        },
{
    match j {
        None => Err(ApiError::Deserialize),
        Some(Json::Array(items)) => {
            let mut materials: Vec<Ec3Material> = Vec::new();
            let mut i: usize = 0;
            while i < items.len()
                invariant
                    i <= items@.len(),
                    materials@.len() == i,
                    forall|k: int| 0 <= k < i ==> materials@[k]@ == cached_material(items@[k]),
                    all_wf(materials@),
                decreases items@.len() - i,
            {
                materials.push(cached_material_of_json(&items[i]));
                i += 1;
            }
            assert(material_views(materials@) =~= Seq::new(
                items@.len(),
                |i: int| cached_material(items@[i]),
            ));
            Ok(materials)
        },
        Some(_) => Err(ApiError::EmptyArray),
    }
}

/// Reads the materials that a stored answer holds.
pub fn read_cache(contents: &str) -> (r: Result<Vec<Ec3Material>, ApiError>)
    ensures
        match r {
            Ok(ms) => cache_materials(json_value(contents@)) == Ok::<
                Seq<Ec3MaterialView>,
                ApiError,
            >(material_views(ms@)) && all_wf(ms@),
            Err(e) => cache_materials(json_value(contents@)) == Err::<
                Seq<Ec3MaterialView>,
                ApiError,
            >(e),
        },
{
    let json = Json::parse(contents);
    cached_materials_of_json(&json)
}

/// The category that a value holds, filed under `parent`. Nothing has to be
/// there: a missing text is empty, and a missing declared unit is one of an
/// unknown unit.
pub open spec fn category_of(j: Json, parent: Option<Seq<char>>) -> Ec3CategoryView {
    Ec3CategoryView {
        id: text_or_empty(member(j, "id"@)),
        name: text_or_empty(member(j, "name"@)),
        display_name: text_or_empty(member(j, "display_name"@)),
        description: text_or_empty(member(j, "description"@)),
        parent_id: parent,
        declared_unit: declared_or_unit(text_of(member(j, "declared_unit"@))),
    }
}

/// The values below a value: the elements of its member `subcategories`,
/// where that is a list.
pub open spec fn subcategories(j: Json) -> Option<Seq<Json>> {
    match member(j, "subcategories"@) {
        Some(Json::Array(items)) => Some(items@),
        _ => None,
    }
}

/// Whether a tree is what a value holds: the node is the value's category
/// under `parent`, and below it stand, in their order, the trees of the
/// value's subcategories, each under the node's id.
pub open spec fn is_tree_of(n: Node<Ec3Category>, j: Json, parent: Option<Seq<char>>) -> bool
    decreases n,
{
    &&& n.value@ == category_of(j, parent)
    &&& match n.children {
        Some(c) => {
            &&& subcategories(j) is Some
            &&& c@.len() == subcategories(j)->0.len()
            &&& forall|i: int|
                0 <= i < c@.len() ==> is_tree_of(
                    #[trigger] c@[i],
                    subcategories(j)->0[i],
                    Some(n.value.id@),
                )
        },
        None => subcategories(j) is None,
    }
}

proof fn lemma_member_in_smaller(members: Seq<(String, Json)>, key: Seq<char>)
    requires
        member_in(members, key) is Some,
    ensures
        decreases_to!(members => member_in(members, key)->0),
    decreases members.len(),
{
    if members[0].0@ != key {
        lemma_member_in_smaller(members.subrange(1, members.len() as int), key);
    }
}

/// A member of a value is smaller than the value.
proof fn lemma_member_smaller(j: Json, key: Seq<char>)
    requires
        member(j, key) is Some,
    ensures
        decreases_to!(j => member(j, key)->0),
{
    match j {
        Json::Object(members) => {
            lemma_member_in_smaller(members@, key);
        },
        _ => {},
    }
}

/// Reads the tree of categories that a value holds, its root filed under
/// `parent`.
pub fn tree_of_json(j: &Json, parent: Option<String>) -> (n: Node<Ec3Category>)
    ensures
        is_tree_of(n, *j, crate::models::opt_text(parent)),
        n.value.declared_unit.wf(),
    decreases *j,
{
    let value = Ec3Category {
        id: j.text_or_empty("id"),
        name: j.text_or_empty("name"),
        display_name: j.text_or_empty("display_name"),
        description: j.text_or_empty("description"),
        parent_id: parent,
        declared_unit: read_declared(j.text("declared_unit")),
    };
    let children = match j.get("subcategories") {
        Some(Json::Array(items)) => {
            proof {
                lemma_member_smaller(*j, "subcategories"@);
            }
            let mut below: Vec<Node<Ec3Category>> = Vec::new();
            let mut i: usize = 0;
            while i < items.len()
                invariant
                    i <= items@.len(),
                    below@.len() == i,
                    decreases_to!(*j => items@),
                    forall|k: int|
                        0 <= k < i ==> is_tree_of(
                            #[trigger] below@[k],
                            items@[k],
                            Some(value.id@),
                        ),
                decreases items@.len() - i,
            {
                let node = tree_of_json(&items[i], Some(value.id.clone()));
                below.push(node);
                i += 1;
            }
            Some(below)
        },
        _ => None,
    };
    Node { value, children }
}

/// What the body of the answer to a request for the categories holds once it
/// is read as JSON: where it is an object, a tree whose root is under no
/// category.
pub open spec fn answer_is_tree(j: Option<Json>) -> bool {
    j matches Some(Json::Object(_))
}

/// Reads the tree of categories that the body of the service's answer holds.
/// It fails with `Deserialize` where the body is not a JSON object.
pub fn decode_categories(body: &str) -> (r: Result<Node<Ec3Category>, ApiError>)
    ensures
        match r {
            Ok(tree) => answer_is_tree(json_value(body@)) && is_tree_of(
                tree,
                json_value(body@)->0,
                None,
            ),
            Err(e) => !answer_is_tree(json_value(body@)) && e == ApiError::Deserialize,
        },
{
    match Json::parse(body) {
        Some(j) => match j {
            Json::Object(_) => Ok(tree_of_json(&j, None)),
            _ => Err(ApiError::Deserialize),
        },
        None => Err(ApiError::Deserialize),
    }
}

} // verus!
